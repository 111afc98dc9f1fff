use vstd::prelude::*;

use crate::energy::{regenerated, Energy};
use crate::geom::{Object, Turn, Vec2, TURN_SCALE};
use crate::health::Health;
use crate::spell::{ticked, Element, Spell, SpellInstance};

verus! {

/// Which of the three spell slots is selected.
#[derive(Clone, Copy, Debug, PartialEq, Eq, Structural)]
pub enum ActiveSlot {
    Slot,
    Slot2,
    Slot3,
}

impl ActiveSlot {
    /// The slot one step towards the first (the first stays where it is).
    pub open spec fn below(self) -> ActiveSlot {
        match self {
            ActiveSlot::Slot => ActiveSlot::Slot,
            ActiveSlot::Slot2 => ActiveSlot::Slot,
            ActiveSlot::Slot3 => ActiveSlot::Slot2,
        }
    }

    /// Steps the selection one slot towards the first.
    pub fn subtract(&mut self)
        ensures
            *final(self) == old(self).below(),
    {
        *self = match *self {
            ActiveSlot::Slot => ActiveSlot::Slot,
            ActiveSlot::Slot2 => ActiveSlot::Slot,
            ActiveSlot::Slot3 => ActiveSlot::Slot2,
        };
    }
}

impl Default for ActiveSlot {
    fn default() -> (r: ActiveSlot)
        ensures
            r == ActiveSlot::Slot,
    {
        ActiveSlot::Slot
    }
}

/// The player's three element slots, the selected one, and the instance of
/// the spell that the selected element casts.
#[derive(Clone, Copy, Debug)]
pub struct ElemSlots {
    pub cur_spell: Option<SpellInstance>,
    pub active: ActiveSlot,
    pub slot: Option<Element>,
    pub slot2: Option<Element>,
    pub slot3: Option<Element>,
}

/// Whether a spell book entry can be cast with the element.
pub open spec fn casts_with(s: Spell, e: Element) -> bool {
    s.element_type@.contains(e)
}

/// Whether index `i` is the first spell of `book` that the element casts.
pub open spec fn first_spell_for(book: Seq<Spell>, e: Element, i: int) -> bool {
    &&& 0 <= i < book.len()
    &&& casts_with(book[i], e)
    &&& forall|j: int| 0 <= j < i ==> !casts_with(#[trigger] book[j], e)
}

impl ElemSlots {
    /// The content of slot `a`.
    pub open spec fn slot_at(&self, a: ActiveSlot) -> Option<Element> {
        match a {
            ActiveSlot::Slot => self.slot,
            ActiveSlot::Slot2 => self.slot2,
            ActiveSlot::Slot3 => self.slot3,
        }
    }

    /// These slots with slot `a` holding `v`.
    pub open spec fn with_slot(self, a: ActiveSlot, v: Option<Element>) -> ElemSlots {
        match a {
            ActiveSlot::Slot => ElemSlots { slot: v, ..self },
            ActiveSlot::Slot2 => ElemSlots { slot2: v, ..self },
            ActiveSlot::Slot3 => ElemSlots { slot3: v, ..self },
        }
    }

    /// Whether every slot is empty.
    pub open spec fn all_empty(&self) -> bool {
        self.slot is None && self.slot2 is None && self.slot3 is None
    }

    /// The first occupied slot, or the first slot when all are empty.
    pub open spec fn first_occupied(&self) -> ActiveSlot {
        if self.slot is Some {
            ActiveSlot::Slot
        } else if self.slot2 is Some {
            ActiveSlot::Slot2
        } else if self.slot3 is Some {
            ActiveSlot::Slot3
        } else {
            ActiveSlot::Slot
        }
    }

    /// Where a new element goes: the first empty slot, else the selected one.
    pub open spec fn insert_target(&self) -> ActiveSlot {
        if self.slot is None {
            ActiveSlot::Slot
        } else if self.slot2 is None {
            ActiveSlot::Slot2
        } else if self.slot3 is None {
            ActiveSlot::Slot3
        } else {
            self.active
        }
    }

    /// The spell instance that the selected element calls for from `book`.
    pub open spec fn current_spell_in(&self, book: Seq<Spell>) -> Option<SpellInstance> {
        match self.slot_at(self.active) {
            None => None,
            Some(e) => if exists|i: int| first_spell_for(book, e, i) {
                let i = choose|i: int| first_spell_for(book, e, i);
                Some(
                    SpellInstance {
                        charged_time: 0,
                        cooldown_time_left: 0,
                        ratio: crate::spell::RATIO_SCALE,
                        being_charged: false,
                        spell: i as usize,
                    },
                )
            } else {
                None
            },
        }
    }

    /// Where the selection lands from `a`: the nearest occupied slot at or
    /// below `a`, else the first occupied slot.
    pub open spec fn settled(&self, a: ActiveSlot) -> ActiveSlot {
        if self.slot_at(a) is Some {
            a
        } else if self.slot_at(a.below()) is Some {
            a.below()
        } else if self.slot_at(a.below().below()) is Some {
            a.below().below()
        } else {
            self.first_occupied()
        }
    }

    /// The selected slot is occupied whenever any slot is, and is the first
    /// slot when none is.
    pub open spec fn wf(&self) -> bool {
        &&& !self.all_empty() ==> self.slot_at(self.active) is Some
        &&& self.all_empty() ==> self.active == ActiveSlot::Slot
    }

    pub fn is_wf(&self) -> (r: bool)
        ensures
            r == self.wf(),
    {
        let empty = self.slot.is_none() && self.slot2.is_none() && self.slot3.is_none();
        if empty {
            self.active == ActiveSlot::Slot
        } else {
            self.slot_has_element(self.active)
        }
    }

    /// Empty slots, the first one selected, no spell.
    pub fn new() -> (r: ElemSlots)
        ensures
            r.all_empty(),
            r.active == ActiveSlot::Slot,
            r.cur_spell is None,
            r.wf(),
    {
        ElemSlots { cur_spell: None, active: ActiveSlot::Slot, slot: None, slot2: None, slot3: None }
    }

    pub fn slot_has_element(&self, new_active: ActiveSlot) -> (r: bool)
        ensures
            r == self.slot_at(new_active) is Some,
    {
        match new_active {
            ActiveSlot::Slot => self.slot.is_some(),
            ActiveSlot::Slot2 => self.slot2.is_some(),
            ActiveSlot::Slot3 => self.slot3.is_some(),
        }
    }

    /// Selects the first occupied slot.
    pub fn init_active(&mut self)
        ensures
            *final(self) == (ElemSlots { active: old(self).first_occupied(), ..*old(self) }),
            final(self).wf(),
    {
        self.active = if self.slot.is_some() {
            ActiveSlot::Slot
        } else if self.slot2.is_some() {
            ActiveSlot::Slot2
        } else if self.slot3.is_some() {
            ActiveSlot::Slot3
        } else {
            ActiveSlot::Slot
        };
    }

    /// Selects slot `new_active` if it holds an element, dropping the charge
    /// of the spell held so far and taking up the spell of the new element;
    /// an empty target changes nothing.
    pub fn switch(&mut self, new_active: ActiveSlot, book: &Vec<Spell>)
        ensures
            old(self).slot_at(new_active) is None ==> *final(self) == *old(self),
            old(self).slot_at(new_active) is Some ==> *final(self) == (ElemSlots {
                active: new_active,
                cur_spell: (ElemSlots { active: new_active, ..*old(self) }).current_spell_in(
                    book@,
                ),
                ..*old(self)
            }),
            old(self).slot_at(new_active) is Some ==> final(self).wf(),
    {
        if self.slot_has_element(new_active) {
            self.active = new_active;
            if let Some(cur_spell) = self.get_cur_mut() {
                cur_spell.being_charged = false;
            }
            self.cur_spell = self.find_current_spell(book);
        }
    }

    /// Empties the selected slot and returns what it held; the selection then
    /// moves down to the nearest occupied slot, or to the first occupied one
    /// when none lies below.
    pub fn take_active(&mut self) -> (r: Option<Element>)
        ensures
            r == old(self).slot_at(old(self).active),
            final(self).slot_at(old(self).active) is None,
            forall|a: ActiveSlot|
                a != old(self).active ==> final(self).slot_at(a) == old(self).slot_at(a),
            final(self).cur_spell == old(self).cur_spell,
            final(self).active == old(self).with_slot(old(self).active, None).settled(old(self).active),
            final(self).wf(),
    {
        let spe = match self.active {
            ActiveSlot::Slot => self.slot.take(),
            ActiveSlot::Slot2 => self.slot2.take(),
            ActiveSlot::Slot3 => self.slot3.take(),
        };
        let ghost emptied = *self;
        let mut steps: u8 = 0;
        while !self.slot_has_element(self.active) && steps < 2
            invariant
                steps <= 2,
                self.slot == emptied.slot && self.slot2 == emptied.slot2 && self.slot3
                    == emptied.slot3,
                self.cur_spell == emptied.cur_spell,
                emptied.slot_at(emptied.active) is None,
                steps == 0 ==> self.active == emptied.active,
                steps == 1 ==> self.active == emptied.active.below(),
                steps == 2 ==> self.active == emptied.active.below().below()
                    && emptied.slot_at(emptied.active.below()) is None,
                steps >= 1 ==> self.active != ActiveSlot::Slot3,
                steps == 2 ==> self.active == ActiveSlot::Slot,
            decreases 2 - steps,
        {
            self.active.subtract();
            steps = steps + 1;
        }
        if !self.slot_has_element(self.active) {
            self.init_active();
        }
        spe
    }

    pub fn get_active_element(&self) -> (r: Option<&Element>)
        ensures
            r.is_some() == self.slot_at(self.active).is_some(),
            r.is_some() ==> *r.unwrap() == self.slot_at(self.active).unwrap(),
    {
        match self.active {
            ActiveSlot::Slot => self.slot.as_ref(),
            ActiveSlot::Slot2 => self.slot2.as_ref(),
            ActiveSlot::Slot3 => self.slot3.as_ref(),
        }
    }

    pub fn get_active_element_mut(&mut self) -> (r: Option<&mut Element>)
        ensures
            r.is_some() == old(self).slot_at(old(self).active).is_some(),
            r.is_some() ==> *r.unwrap() == old(self).slot_at(old(self).active).unwrap(),
            r.is_some() ==> *final(self) == old(self).with_slot(old(self).active, Some(*final(r.unwrap()))),
            r.is_none() ==> *final(self) == *old(self),
    {
        match self.active {
            ActiveSlot::Slot => self.slot.as_mut(),
            ActiveSlot::Slot2 => self.slot2.as_mut(),
            ActiveSlot::Slot3 => self.slot3.as_mut(),
        }
    }

    /// The slot where a new element goes: the first empty one, else the
    /// selected one.
    pub fn insert(&mut self) -> (r: &mut Option<Element>)
        ensures
            *r == old(self).slot_at(old(self).insert_target()),
            *final(self) == old(self).with_slot(old(self).insert_target(), *final(r)),
    {
        if self.slot.is_none() {
            &mut self.slot
        } else if self.slot2.is_none() {
            &mut self.slot2
        } else if self.slot3.is_none() {
            &mut self.slot3
        } else {
            match self.active {
                ActiveSlot::Slot => &mut self.slot,
                ActiveSlot::Slot2 => &mut self.slot2,
                ActiveSlot::Slot3 => &mut self.slot3,
            }
        }
    }

    /// Puts `element` where a new element goes and returns what it replaced.
    pub fn add_element(&mut self, element: Element) -> (r: Option<Element>)
        ensures
            r == old(self).slot_at(old(self).insert_target()),
            *final(self) == old(self).with_slot(old(self).insert_target(), Some(element)),
            old(self).wf() ==> final(self).wf(),
    {
        let s = self.insert();
        let prev = *s;
        *s = Some(element);
        prev
    }

    /// A fresh instance of the first spell in `book` that the selected element
    /// casts, if there is one.
    pub fn find_current_spell(&mut self, book: &Vec<Spell>) -> (r: Option<SpellInstance>)
        ensures
            *final(self) == *old(self),
            r == old(self).current_spell_in(book@),
    {
        let e = match self.get_active_element() {
            Some(e) => *e,
            None => {
                return None;
            },
        };
        let mut i: usize = 0;
        while i < book.len()
            invariant
                i <= book.len(),
                *self == *old(self),
                old(self).slot_at(old(self).active) == Some(e),
                forall|j: int| 0 <= j < i ==> !casts_with(#[trigger] book@[j], e),
            decreases book.len() - i,
        {
            if has_element(&book[i].element_type, e) {
                proof {
                    assert(first_spell_for(book@, e, i as int));
                    let k = choose|k: int| first_spell_for(book@, e, k);
                    assert(k == i) by {
                        if k < i {
                            assert(!casts_with(book@[k], e));
                        }
                        if k > i {
                            assert(!casts_with(book@[i as int], e));
                        }
                    }
                }
                return Some(book[i].make_instance(i));
            }
            i = i + 1;
        }
        None
    }

    pub fn get_cur(&self) -> (r: Option<&SpellInstance>)
        ensures
            r.is_some() == self.cur_spell.is_some(),
            r.is_some() ==> *r.unwrap() == self.cur_spell.unwrap(),
    {
        self.cur_spell.as_ref()
    }

    pub fn get_cur_mut(&mut self) -> (r: Option<&mut SpellInstance>)
        ensures
            r.is_some() == old(self).cur_spell.is_some(),
            r.is_some() ==> *r.unwrap() == old(self).cur_spell.unwrap(),
            r.is_some() ==> *final(self) == (ElemSlots {
                cur_spell: Some(*final(r.unwrap())),
                ..*old(self)
            }),
            r.is_none() ==> *final(self) == *old(self),
    {
        self.cur_spell.as_mut()
    }

    /// The elements held, first slot first.
    pub fn elements(self) -> (r: Vec<Element>)
        ensures
            r@ == seq_of_slots(self.slot, self.slot2, self.slot3),
    {
        let mut v: Vec<Element> = Vec::new();
        if let Some(e) = self.slot {
            v.push(e);
        }
        if let Some(e) = self.slot2 {
            v.push(e);
        }
        if let Some(e) = self.slot3 {
            v.push(e);
        }
        v
    }
}

/// The occupied slots' elements in slot order.
pub open spec fn seq_of_slots(a: Option<Element>, b: Option<Element>, c: Option<Element>) -> Seq<
    Element,
> {
    let s1 = if a is Some { seq![a.unwrap()] } else { Seq::empty() };
    let s2 = if b is Some { seq![b.unwrap()] } else { Seq::empty() };
    let s3 = if c is Some { seq![c.unwrap()] } else { Seq::empty() };
    s1 + s2 + s3
}

/// Whether `v` holds `e`.
fn has_element(v: &Vec<Element>, e: Element) -> (r: bool)
    ensures
        r == v@.contains(e),
{
    let mut i: usize = 0;
    while i < v.len()
        invariant
            i <= v.len(),
            forall|j: int| 0 <= j < i ==> v@[j] != e,
        decreases v.len() - i,
    {
        if v[i] == e {
            return true;
        }
        i = i + 1;
    }
    false
}

/// The player, or the body of an enemy: placement, health, spell slots and
/// energy.
#[derive(Clone, Copy, Debug)]
pub struct Player {
    pub obj: Object,
    pub health: Health,
    pub spell: ElemSlots,
    pub energy: Energy,
}

impl Player {
    /// Pools valid, slots well formed, and the held spell, if any, in `book`.
    pub open spec fn valid_in(&self, book: Seq<Spell>) -> bool {
        &&& self.health.wf()
        &&& self.energy.wf()
        &&& self.spell.wf()
        &&& self.spell.cur_spell is Some ==> self.spell.cur_spell.unwrap().spell < book.len()
    }

    /// Whether the energy pool is valid.
    pub fn energy_ok(&self) -> (r: bool)
        ensures
            r == self.energy.wf(),
    {
        self.energy.cur_energy <= self.energy.max_energy
    }

    /// A player at `obj` with full health and energy and empty slots.
    pub fn new(obj: Object) -> (r: Player)
        ensures
            r.obj == obj,
            r.health == Health::new_spec(),
            r.energy == Energy::default_spec(),
            r.spell.all_empty() && r.spell.active == ActiveSlot::Slot && r.spell.cur_spell is None,
            r.valid_in(Seq::empty()),
    {
        Player { obj, spell: ElemSlots::new(), health: Health::new(), energy: Energy::full() }
    }

    pub fn from_point(p: Vec2) -> (r: Player)
        ensures
            r.obj.pos == p,
            r.obj.rot == (Turn { cos: TURN_SCALE, sin: 0 }),
            r.health == Health::new_spec(),
            r.energy == Energy::default_spec(),
            r.spell.all_empty() && r.spell.active == ActiveSlot::Slot && r.spell.cur_spell is None,
    {
        Player::new(Object::new(p))
    }

    pub fn with_health(self, health: Health) -> (r: Player)
        ensures
            r == (Player { health, ..self }),
    {
        Player { health, ..self }
    }

    pub fn with_energy(self, energy: Energy) -> (r: Player)
        ensures
            r == (Player { energy, ..self }),
    {
        Player { energy, ..self }
    }

    pub fn with_spell(self, spell: ElemSlots) -> (r: Player)
        ensures
            r == (Player { spell, ..self }),
    {
        Player { spell, ..self }
    }

    /// One tick: takes up the selected element's spell if none is held,
    /// advances the held spell's charge and cooldown, and regains energy.
    pub fn update(&mut self, book: &Vec<Spell>)
        requires
            old(self).valid_in(book@),
        ensures
            final(self).valid_in(book@),
            final(self).obj == old(self).obj,
            final(self).health == old(self).health,
            final(self).energy == regenerated(old(self).energy),
            final(self).spell == (ElemSlots { cur_spell: final(self).spell.cur_spell, ..old(self).spell }),
            ({
                let held = if old(self).spell.cur_spell is None {
                    old(self).spell.current_spell_in(book@)
                } else {
                    old(self).spell.cur_spell
                };
                match held {
                    None => final(self).spell.cur_spell is None,
                    Some(s) => final(self).spell.cur_spell == Some(
                        ticked(s, book@[s.spell as int].charge_time as int),
                    ),
                }
            }),
    {
        if self.spell.cur_spell.is_none() && self.spell.get_active_element().is_some() {
            self.spell.cur_spell = self.spell.find_current_spell(book);
            proof {
                if self.spell.cur_spell is Some {
                    let e = old(self).spell.slot_at(old(self).spell.active).unwrap();
                    let i = choose|i: int| first_spell_for(book@, e, i);
                    assert(first_spell_for(book@, e, i));
                }
            }
        }
        if let Some(spell) = self.spell.get_cur_mut() {
            let idx = spell.spell;
            spell.update(&book[idx]);
        }
        self.energy.update();
    }
}

impl Default for ElemSlots {
    fn default() -> (r: ElemSlots)
        ensures
            r.all_empty() && r.active == ActiveSlot::Slot && r.cur_spell is None,
    {
        ElemSlots::new()
    }
}

} // verus!
