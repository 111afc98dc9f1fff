use spellcore::geom::{Turn, TURN_SCALE};
use spellcore::player::{ActiveSlot, ElemSlots, Player};
use spellcore::projectile::ProjectileMaker;
use spellcore::explosion::ExplosionMaker;
use spellcore::spell::{
    def_charge, def_charge_time, def_range, CastType, ChargeUpType, Element, ObjMaker, Spell,
    SpellInstance, SpellTemplate, SpellType,
};

fn spell(id: &str, elements: Vec<Element>, cast_type: CastType, spell_type: SpellType) -> Spell {
    Spell {
        id: id.to_string(),
        name: id.to_string(),
        cast_name: id.to_string(),
        element_type: elements,
        energy_cost: 10_000,
        spell_type,
        cast_type,
        cooldown_time: 0,
        charge_time: 250_000,
        cast_snd: "throw".to_string(),
        charge_snd: "ding".to_string(),
        spell_range: 144_000,
        pattern: vec![Turn { cos: TURN_SCALE, sin: 0 }],
    }
}

fn instance(charged_time: u64, being_charged: bool) -> SpellInstance {
    SpellInstance { charged_time, cooldown_time_left: 0, ratio: 1000, being_charged, spell: 0 }
}

fn slots(a: Option<Element>, b: Option<Element>, c: Option<Element>, active: ActiveSlot) -> ElemSlots {
    ElemSlots { cur_spell: None, active, slot: a, slot2: b, slot3: c }
}

#[test]
fn element_names_in_any_case() {
    assert_eq!(Element::get_from_str("water"), Some(Element::Water));
    assert_eq!(Element::get_from_str("WATER"), Some(Element::Water));
    assert_eq!(Element::get_from_str("Fire"), Some(Element::Fire));
    assert_eq!(Element::get_from_str("iCe"), Some(Element::Ice));
    assert_eq!(Element::get_from_str("Electric"), Some(Element::Electric));
    assert_eq!(Element::get_from_str("earth"), None);
    assert_eq!(Element::get_from_str(""), None);
}

#[test]
fn element_sprites() {
    assert_eq!(Element::Water.get_spr(), "spells/elements/water");
    assert_eq!(Element::Fire.get_spr(), "spells/elements/fire");
    assert_eq!(Element::Ice.get_spr(), "spells/elements/ice");
    assert_eq!(Element::Electric.get_spr(), "spells/elements/electric");
}

#[test]
fn cast_type_predicates() {
    assert!(CastType::WhileCharging { frequency: 250 }.cast_while_charging());
    assert!(!CastType::EndOfCharge.cast_while_charging());
    assert!(CastType::ChargeUp { charge_type: vec![ChargeUpType::Damage] }.is_charge_up());
    assert!(!CastType::EndOfCharge.is_charge_up());
    assert!(matches!(CastType::default(), CastType::EndOfCharge));
}

#[test]
fn end_of_charge_needs_full_charge() {
    let s = spell("bolt", vec![Element::Fire], CastType::EndOfCharge, SpellType::Projectile);
    let mut i = instance(0, true);
    assert_eq!(i.cast(&s), None);
    let mut i = instance(240_000, true);
    assert_eq!(i.cast(&s), Some(ObjMaker::Projectile(ProjectileMaker(0, 1000))));
}

#[test]
fn charge_up_records_ratio() {
    let s = spell(
        "blast",
        vec![Element::Fire],
        CastType::ChargeUp { charge_type: vec![ChargeUpType::Range] },
        SpellType::Explosion,
    );
    let mut i = instance(125_000, true);
    assert_eq!(i.cast(&s), Some(ObjMaker::Explosion(ExplosionMaker(0, 500))));
    assert_eq!(i.ratio, 500);
}

#[test]
fn while_charging_pulses() {
    let s = spell("spray", vec![Element::Water], CastType::WhileCharging { frequency: 250 }, SpellType::Projectile);
    let mut i = instance(0, true);
    assert_eq!(i.cast(&s), None);
    let mut i = instance(52_500, true);
    assert!(i.cast(&s).is_some());
}

#[test]
fn charging_advances_and_resets_at_full() {
    let s = spell("bolt", vec![Element::Fire], CastType::EndOfCharge, SpellType::Projectile);
    let mut i = instance(0, true);
    i.update(&s);
    assert_eq!(i.charged_time, 16_667);
    assert!(i.being_charged);
    let mut i = instance(240_000, true);
    i.update(&s);
    assert_eq!(i.charged_time, 0);
    assert!(!i.being_charged);
    let mut i = instance(100_000, false);
    i.update(&s);
    assert_eq!(i.charged_time, 0);
}

#[test]
fn cooldown_counts_down_to_zero() {
    let s = spell("bolt", vec![Element::Fire], CastType::EndOfCharge, SpellType::Projectile);
    let mut i = SpellInstance { cooldown_time_left: 20_000, ..instance(0, false) };
    i.update(&s);
    assert_eq!(i.cooldown_time_left, 3_333);
    i.update(&s);
    assert_eq!(i.cooldown_time_left, 0);
}

#[test]
fn make_instance_is_idle() {
    let s = spell("bolt", vec![Element::Fire], CastType::EndOfCharge, SpellType::Projectile);
    assert_eq!(s.make_instance(3), SpellInstance { charged_time: 0, cooldown_time_left: 0, ratio: 1000, being_charged: false, spell: 3 });
}

#[test]
fn template_defaults_and_build() {
    assert_eq!(def_charge_time(), 250_000);
    assert_eq!(def_charge(), "ding");
    assert_eq!(def_range(), 144_000);
    let t = SpellTemplate {
        name: "Fireball".to_string(),
        cast_name: "fireball".to_string(),
        element_type: vec![Element::Fire],
        energy_cost: 20_000,
        spell_type: SpellType::Explosion,
        cast_type: CastType::EndOfCharge,
        spell_range: 144_000,
        cooldown_time: 0,
        charge_time: 250_000,
        cast_snd: "throw".to_string(),
        charge_snd: "ding".to_string(),
        pattern: vec![],
    };
    let s = t.build("fb".to_string());
    assert_eq!(s.id, "fb");
    assert_eq!(s.name, "Fireball");
    assert_eq!(s.energy_cost, 20_000);
}

#[test]
fn switch_to_empty_slot_is_noop() {
    let book = vec![spell("bolt", vec![Element::Fire], CastType::EndOfCharge, SpellType::Projectile)];
    let mut s = slots(Some(Element::Fire), None, None, ActiveSlot::Slot);
    s.switch(ActiveSlot::Slot2, &book);
    assert_eq!(s.active, ActiveSlot::Slot);
    assert_eq!(s.slot, Some(Element::Fire));
    assert!(s.cur_spell.is_none());
}

#[test]
fn switch_takes_up_first_matching_spell() {
    let book = vec![
        spell("frost", vec![Element::Ice], CastType::EndOfCharge, SpellType::Projectile),
        spell("bolt", vec![Element::Water, Element::Fire], CastType::EndOfCharge, SpellType::Projectile),
        spell("flame", vec![Element::Fire], CastType::EndOfCharge, SpellType::Projectile),
    ];
    let mut s = slots(Some(Element::Ice), None, Some(Element::Fire), ActiveSlot::Slot);
    s.cur_spell = Some(SpellInstance { being_charged: true, ..instance(50_000, true) });
    s.switch(ActiveSlot::Slot3, &book);
    assert_eq!(s.active, ActiveSlot::Slot3);
    assert_eq!(s.cur_spell.map(|c| c.spell), Some(1));
    assert_eq!(s.cur_spell.map(|c| c.charged_time), Some(0));
}

#[test]
fn find_spell_none_without_match() {
    let book = vec![spell("frost", vec![Element::Ice], CastType::EndOfCharge, SpellType::Projectile)];
    let mut s = slots(Some(Element::Electric), None, None, ActiveSlot::Slot);
    assert!(s.find_current_spell(&book).is_none());
    let mut empty = slots(None, None, None, ActiveSlot::Slot);
    assert!(empty.find_current_spell(&book).is_none());
}

#[test]
fn take_active_moves_selection_down() {
    let mut s = slots(Some(Element::Fire), Some(Element::Water), Some(Element::Ice), ActiveSlot::Slot3);
    assert_eq!(s.take_active(), Some(Element::Ice));
    assert_eq!(s.active, ActiveSlot::Slot2);
    assert_eq!(s.slot3, None);
    let mut s = slots(Some(Element::Fire), None, Some(Element::Ice), ActiveSlot::Slot3);
    assert_eq!(s.take_active(), Some(Element::Ice));
    assert_eq!(s.active, ActiveSlot::Slot);
}

#[test]
fn take_active_finds_slot_above_when_none_below() {
    let mut s = slots(None, Some(Element::Water), Some(Element::Ice), ActiveSlot::Slot2);
    assert_eq!(s.take_active(), Some(Element::Water));
    assert_eq!(s.active, ActiveSlot::Slot3);
    let mut last = slots(Some(Element::Fire), None, None, ActiveSlot::Slot);
    assert_eq!(last.take_active(), Some(Element::Fire));
    assert_eq!(last.active, ActiveSlot::Slot);
    assert_eq!(last.slot, None);
}

#[test]
fn new_elements_fill_first_empty_slot_then_active() {
    let mut s = ElemSlots::default();
    assert_eq!(s.add_element(Element::Fire), None);
    assert_eq!(s.add_element(Element::Water), None);
    assert_eq!(s.add_element(Element::Ice), None);
    assert_eq!((s.slot, s.slot2, s.slot3), (Some(Element::Fire), Some(Element::Water), Some(Element::Ice)));
    s.active = ActiveSlot::Slot2;
    assert_eq!(s.add_element(Element::Electric), Some(Element::Water));
    assert_eq!(s.slot2, Some(Element::Electric));
    assert_eq!(s.elements(), vec![Element::Fire, Element::Electric, Element::Ice]);
}

#[test]
fn insert_gives_the_target_slot() {
    let mut s = slots(Some(Element::Fire), None, Some(Element::Ice), ActiveSlot::Slot);
    {
        let target = s.insert();
        assert_eq!(*target, None);
        *target = Some(Element::Water);
    }
    assert_eq!(s.slot2, Some(Element::Water));
}

#[test]
fn init_active_picks_first_occupied() {
    let mut s = slots(None, None, Some(Element::Ice), ActiveSlot::Slot);
    s.init_active();
    assert_eq!(s.active, ActiveSlot::Slot3);
    let mut e = slots(None, None, None, ActiveSlot::Slot2);
    e.init_active();
    assert_eq!(e.active, ActiveSlot::Slot);
    assert!(s.slot_has_element(ActiveSlot::Slot3));
    assert!(!s.slot_has_element(ActiveSlot::Slot));
    assert_eq!(s.get_active_element(), Some(&Element::Ice));
}

#[test]
fn subtract_steps_down() {
    let mut a = ActiveSlot::Slot3;
    a.subtract();
    assert_eq!(a, ActiveSlot::Slot2);
    a.subtract();
    assert_eq!(a, ActiveSlot::Slot);
    a.subtract();
    assert_eq!(a, ActiveSlot::Slot);
    assert_eq!(ActiveSlot::default(), ActiveSlot::Slot);
}

#[test]
fn player_update_takes_up_spell_and_regains() {
    let book = vec![spell("bolt", vec![Element::Fire], CastType::EndOfCharge, SpellType::Projectile)];
    let mut p = Player::from_point(spellcore::geom::Vec2::new(0, 0));
    p.energy.cur_energy = 50_000;
    let _ = p.spell.add_element(Element::Fire);
    p.update(&book);
    assert_eq!(p.spell.cur_spell.map(|c| c.spell), Some(0));
    assert_eq!(p.energy.cur_energy, 50_125);
    let mut cur = p.spell.get_cur_mut();
    cur.as_mut().unwrap().being_charged = true;
    p.update(&book);
    assert_eq!(p.spell.get_cur().map(|c| c.charged_time), Some(16_667));
}

#[test]
fn cooldown_blocks_cast_and_restarts_on_fire() {
    let mut s = spell(
        "blast",
        vec![Element::Fire],
        CastType::ChargeUp { charge_type: vec![ChargeUpType::Range] },
        SpellType::Explosion,
    );
    s.cooldown_time = 300_000;
    let mut busy = SpellInstance { cooldown_time_left: 10_000, ..instance(125_000, true) };
    assert_eq!(busy.cast(&s), None);
    assert_eq!(busy.ratio, 1000);
    assert_eq!(busy.cooldown_time_left, 10_000);
    let mut ready = instance(125_000, true);
    assert!(ready.cast(&s).is_some());
    assert_eq!(ready.cooldown_time_left, 300_000);
    assert_eq!(ready.cast(&s), None);
}
