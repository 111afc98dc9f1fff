use spellcore::enemy::{Chaser, Enemy};
use spellcore::explosion::{
    def_cos_half, Explosion, ExplosionInstance, ExplosionMaker, ExplosionState, ExplosionTemplate,
    ExplosionUpdate,
};
use spellcore::geom::{near_segment, within_cone, Object, Turn, Vec2, TURN_SCALE};
use spellcore::health::Health;
use spellcore::player::Player;
use spellcore::projectile::{
    def_impact, def_speed, CastResult, Hit, Projectile, ProjectileInstance, ProjectileMaker,
    ProjectileTemplate,
};
use spellcore::spell::{CastType, ChargeUpType, Element, Spell, SpellType};

const EAST: Turn = Turn { cos: TURN_SCALE, sin: 0 };

fn v(x: i64, y: i64) -> Vec2 {
    Vec2::new(x, y)
}

fn body(x: i64, y: i64) -> Player {
    Player::from_point(v(x, y))
}

fn bolt() -> Projectile {
    Projectile {
        id: "bolt".to_string(),
        damage: 20,
        penetration: 500,
        impact_snd: "impact".to_string(),
        entity_sprite: "spells/bolt".to_string(),
        speed: 1_200_000,
        range: 500_000,
    }
}

fn flying(speed: u64) -> ProjectileInstance {
    ProjectileInstance { obj: Object { pos: v(0, 0), rot: EAST }, speed, power: 1000, spell: 0, projectile: 0 }
}

#[test]
fn segment_near_middle_and_ends() {
    assert!(near_segment(v(0, 0), v(20_000, 0), v(10_000, 15_000), 16_000));
    assert!(!near_segment(v(0, 0), v(20_000, 0), v(10_000, 17_000), 16_000));
    assert!(near_segment(v(0, 0), v(20_000, 0), v(-15_000, 0), 16_000));
    assert!(!near_segment(v(0, 0), v(20_000, 0), v(-17_000, 0), 16_000));
    assert!(near_segment(v(0, 0), v(20_000, 0), v(35_000, 0), 16_000));
    assert!(!near_segment(v(0, 0), v(0, 0), v(17_000, 0), 16_000));
}

#[test]
fn cone_of_ninety_degrees() {
    let c45 = 46_341;
    assert!(within_cone(EAST, v(1000, 900), c45));
    assert!(!within_cone(EAST, v(1000, 1100), c45));
    assert!(!within_cone(EAST, v(-1000, 0), c45));
    assert!(within_cone(EAST, v(0, 0), c45));
}

#[test]
fn cone_wider_than_half_circle() {
    let c135 = -46_341;
    assert!(within_cone(EAST, v(-1000, 1100), c135));
    assert!(within_cone(EAST, v(0, 1000), c135));
    assert!(!within_cone(EAST, v(-1000, 100), c135));
    assert!(within_cone(EAST, v(-1000, 0), def_cos_half()));
}

#[test]
fn turns_compose() {
    let north = Turn { cos: 0, sin: TURN_SCALE };
    assert_eq!(EAST.turn_by(north), north);
    assert_eq!(north.turn_by(north), Turn { cos: -TURN_SCALE, sin: 0 });
}

#[test]
fn slow_projectile_stops_as_wall_hit() {
    let mut p = flying(3_000);
    let mut player = body(1_000, 0);
    let mut enemies = vec![];
    let cast = CastResult { point: v(50, 0), full: true };
    assert_eq!(p.update(&bolt(), cast, &mut player, &mut enemies), Hit::Wall);
    assert_eq!(p.obj.pos, v(0, 0));
    assert_eq!(p.speed, 3_000);
    assert_eq!(player.health.hp, 100);
}

#[test]
fn projectile_hits_player_first() {
    let mut p = flying(1_200_000);
    assert_eq!(p.displacement(), v(20_000, 0));
    let mut player = body(10_000, 5_000);
    let mut enemies = vec![Enemy::new(body(10_000, 0))];
    let cast = CastResult { point: v(20_000, 0), full: true };
    assert_eq!(p.update(&bolt(), cast, &mut player, &mut enemies), Hit::Player);
    assert_eq!((player.health.hp, player.health.armour), (90, 90));
    assert_eq!(enemies[0].pl.health.hp, 100);
}

#[test]
fn projectile_hits_first_enemy_in_order() {
    let mut p = flying(600_000);
    let mut player = body(0, 100_000);
    let mut enemies = vec![
        Enemy::new(body(500_000, 0)),
        Enemy::new(body(8_000, -3_000)),
        Enemy::new(body(9_000, 0)),
    ];
    let cast = CastResult { point: v(10_000, 0), full: true };
    assert_eq!(p.update(&bolt(), cast, &mut player, &mut enemies), Hit::Enemy(1));
    assert_eq!((enemies[1].pl.health.hp, enemies[1].pl.health.armour), (95, 95));
    assert_eq!(enemies[2].pl.health.hp, 100);
}

#[test]
fn projectile_flies_on_and_slows() {
    let mut p = flying(1_200_000);
    let mut player = body(0, 100_000);
    let mut enemies = vec![];
    let cast = CastResult { point: v(20_000, 0), full: true };
    assert_eq!(p.update(&bolt(), cast, &mut player, &mut enemies), Hit::NoHit);
    assert_eq!(p.obj.pos, v(20_000, 0));
    assert_eq!(p.speed, 1_200_000 - 3_666);
    let blocked = CastResult { point: v(25_000, 0), full: false };
    assert_eq!(p.update(&bolt(), blocked, &mut player, &mut enemies), Hit::Wall);
    assert_eq!(p.obj.pos, v(25_000, 0));
    assert!(p.speed < 1_200_000 - 3_666);
}

#[test]
fn projectile_damage_scales_with_speed() {
    let p = flying(600_000);
    let mut h = Health::new();
    p.apply_damage(&bolt(), &mut h);
    assert_eq!((h.hp, h.armour), (95, 95));
}

#[test]
fn projectile_template_builds() {
    assert_eq!(def_impact(), "impact");
    assert_eq!(def_speed(), 1_200_000);
    let t = ProjectileTemplate {
        damage: 20,
        penetration: 500,
        impact_snd: def_impact(),
        entity_sprite: "spells/bolt".to_string(),
        speed: def_speed(),
        range: 400_000,
    };
    let p = t.build("bolt".to_string());
    assert_eq!(p.id, "bolt");
    assert_eq!(p.speed, 1_200_000);
    assert_eq!(p.range, 400_000);
}

fn fan_spell(spell_type: SpellType) -> Spell {
    Spell {
        id: "fan".to_string(),
        name: "Fan".to_string(),
        cast_name: "fan".to_string(),
        element_type: vec![Element::Fire],
        energy_cost: 10_000,
        spell_type,
        cast_type: CastType::EndOfCharge,
        cooldown_time: 0,
        charge_time: 250_000,
        cast_snd: "throw".to_string(),
        charge_snd: "ding".to_string(),
        spell_range: 144_000,
        pattern: vec![EAST, Turn { cos: 0, sin: TURN_SCALE }],
    }
}

#[test]
fn projectile_maker_fans_out() {
    let made = ProjectileMaker(0, 1000).make(Object { pos: v(0, 0), rot: EAST }, &fan_spell(SpellType::Projectile), &bolt(), 2);
    assert_eq!(made.len(), 2);
    assert_eq!(made[0].obj.rot, EAST);
    assert_eq!(made[1].obj.rot, Turn { cos: 0, sin: TURN_SCALE });
    assert_eq!(made[1].speed, 1_200_000);
    assert_eq!(made[1].projectile, 2);
}

fn boom() -> Explosion {
    Explosion {
        id: "boom".to_string(),
        start_fuse: 10_000,
        range: 100_000,
        cos_half: -TURN_SCALE,
        low_damage: 10,
        high_damage: 50,
        penetration: 0,
        entity_sprite: "spells/explosions/fire".to_string(),
        lethal_range: 50_000,
    }
}

fn lit(fuse: u64, cos_half: i64) -> ExplosionInstance {
    ExplosionInstance {
        cos_half,
        range: 100_000,
        power: 1000,
        obj: Object { pos: v(0, 0), rot: EAST },
        fuse,
        state: ExplosionState::Fused { fuse },
        spell: 0,
        explosion: 0,
    }
}

#[test]
fn fuse_burns_down() {
    let mut x = lit(100_000, -TURN_SCALE);
    let mut player = body(30_000, 0);
    let mut enemies = vec![];
    let r = x.update_fused(&boom(), true, &vec![], &mut player, &mut enemies);
    assert!(matches!(r, ExplosionUpdate::Nothing));
    assert_eq!(x.fuse, 83_333);
    assert_eq!(player.health.armour, 100);
}

#[test]
fn explosion_hits_in_range_and_visible() {
    let mut x = lit(10_000, -TURN_SCALE);
    let mut player = body(30_000, 0);
    let mut enemies = vec![
        Enemy::new(body(80_000, 0)),
        Enemy::new(body(200_000, 0)),
        Enemy::new(body(10_000, 0)),
        Enemy::new(body(0, 20_000)),
    ];
    let seen = vec![true, true, false, true];
    let r = x.update_fused(&boom(), true, &seen, &mut player, &mut enemies);
    match r {
        ExplosionUpdate::Explosion { player_hit, enemy_hits } => {
            assert!(player_hit);
            assert_eq!(enemy_hits, vec![3, 0]);
        }
        _ => panic!("the fuse should have run out"),
    }
    assert_eq!(x.fuse, 0);
    assert_eq!((player.health.hp, player.health.armour), (100, 50));
    assert_eq!(enemies[0].pl.health.armour, 90);
    assert_eq!(enemies[1].pl.health.armour, 100);
    assert_eq!(enemies[2].pl.health.armour, 100);
    assert_eq!(enemies[3].pl.health.armour, 50);
}

#[test]
fn explosion_sector_excludes_behind() {
    let x = lit(0, 0);
    assert!(!x.is_pos_hit(&boom(), true, v(-30_000, 0)));
    assert!(x.is_pos_hit(&boom(), true, v(30_000, 10_000)));
    assert!(!x.is_pos_hit(&boom(), false, v(30_000, 10_000)));
    assert!(!x.is_pos_hit(&boom(), true, v(100_000, 0)));
}

#[test]
fn explosion_hit_set_repeats() {
    let mut first = lit(0, 0);
    let mut second = lit(0, 0);
    let mut p1 = body(40_000, 0);
    let mut p2 = body(40_000, 0);
    let mut e1 = vec![Enemy::new(body(60_000, 5_000)), Enemy::new(body(-60_000, 0))];
    let mut e2 = e1.clone();
    let seen = vec![true, true];
    let a = first.update(&boom(), true, &seen, &mut p1, &mut e1);
    let b = second.update(&boom(), true, &seen, &mut p2, &mut e2);
    match (a, b) {
        (ExplosionUpdate::Explosion { player_hit: h1, enemy_hits: l1 }, ExplosionUpdate::Explosion { player_hit: h2, enemy_hits: l2 }) => {
            assert_eq!(h1, h2);
            assert_eq!(l1, l2);
            assert_eq!(l1, vec![0]);
        }
        _ => panic!("both fuses should have run out"),
    }
    assert_eq!(first.state, ExplosionState::Explosion { alive_time: 0 });
}

#[test]
fn burst_dies_after_lifetime() {
    let mut x = ExplosionInstance { state: ExplosionState::Explosion { alive_time: 490_000 }, ..lit(0, 0) };
    let mut player = body(0, 0);
    let mut enemies = vec![];
    assert!(matches!(x.update(&boom(), true, &vec![], &mut player, &mut enemies), ExplosionUpdate::Dead));
    let mut y = ExplosionInstance { state: ExplosionState::Explosion { alive_time: 0 }, ..lit(0, 0) };
    assert!(matches!(y.update(&boom(), true, &vec![], &mut player, &mut enemies), ExplosionUpdate::Nothing));
    assert_eq!(y.state, ExplosionState::Explosion { alive_time: 16_667 });
}

#[test]
fn explosion_maker_places_along_pattern() {
    let made = ExplosionMaker(0, 1000).make(Object { pos: v(0, 0), rot: EAST }, &fan_spell(SpellType::Explosion), &boom(), 1);
    assert_eq!(made.len(), 2);
    assert_eq!(made[0].obj.pos, v(144_000, 0));
    assert_eq!(made[1].obj.pos, v(0, 144_000));
    assert_eq!(made[1].fuse, 10_000);
    assert_eq!(made[1].state, ExplosionState::Fused { fuse: 10_000 });
    assert_eq!(made[1].cos_half, -TURN_SCALE);
    assert_eq!((made[1].range, made[1].power), (100_000, 1000));
}

#[test]
fn charge_up_scales_listed_axes() {
    let mut s = fan_spell(SpellType::Projectile);
    s.cast_type = CastType::ChargeUp { charge_type: vec![ChargeUpType::Speed, ChargeUpType::Damage] };
    let made = ProjectileMaker(0, 500).make(Object { pos: v(0, 0), rot: EAST }, &s, &bolt(), 0);
    assert_eq!((made[0].speed, made[0].power), (600_000, 500));
    let mut h = Health::new();
    made[0].apply_damage(&bolt(), &mut h);
    assert_eq!((h.hp, h.armour), (98, 97));
    let mut e = fan_spell(SpellType::Explosion);
    e.cast_type = CastType::ChargeUp { charge_type: vec![ChargeUpType::Range] };
    let placed = ExplosionMaker(0, 250).make(Object { pos: v(0, 0), rot: EAST }, &e, &boom(), 0);
    assert_eq!((placed[0].range, placed[0].power), (25_000, 1000));
    let full = ExplosionMaker(0, 5000).make(Object { pos: v(0, 0), rot: EAST }, &e, &boom(), 0);
    assert_eq!(full[0].range, 100_000);
}

#[test]
fn weak_explosion_deals_less() {
    let x = ExplosionInstance { power: 500, ..lit(0, -TURN_SCALE) };
    let mut h = Health::new();
    x.apply_damage(&boom(), &mut h, true);
    assert_eq!(h.armour, 75);
}

#[test]
fn explosion_template_builds() {
    let t = ExplosionTemplate {
        low_damage: 10,
        high_damage: 50,
        penetration: 0,
        start_fuse: 10_000,
        entity_sprite: "fire".to_string(),
        range: 100_000,
        cos_half: def_cos_half(),
        lethal_range: 50_000,
    };
    let e = t.build("boom".to_string());
    assert_eq!(e.id, "boom");
    assert_eq!(e.cos_half, -TURN_SCALE);
    assert_eq!(e.high_damage, 50);
}

#[test]
fn idle_enemy_seeing_player_chases() {
    let mut e = Enemy::new(body(0, 0));
    assert_eq!(e.behaviour, Chaser::Idle);
    e.perceive(true, v(5_000, 6_000), v(100, -200));
    assert_eq!(e.behaviour, Chaser::LastKnown { pos: v(5_000, 6_000), vel: v(100, -200) });
    assert!(e.behaviour.chasing());
}

#[test]
fn unseen_player_leaves_behaviour() {
    let mut e = Enemy::new(body(0, 0));
    e.behaviour = Chaser::LookAround { dir: v(1, 0) };
    e.perceive(false, v(5_000, 6_000), v(0, 0));
    assert_eq!(e.behaviour, Chaser::LookAround { dir: v(1, 0) });
    e.perceive(true, v(5_000, 6_000), v(0, 0));
    assert_eq!(e.behaviour, Chaser::LastKnown { pos: v(5_000, 6_000), vel: v(0, 0) });
}

#[test]
fn alert_only_when_not_chasing() {
    let mut e = Enemy::new(body(0, 0));
    e.alert(v(3, 4));
    assert_eq!(e.behaviour, Chaser::LookAround { dir: v(3, 4) });
    e.behaviour = Chaser::LastKnown { pos: v(1, 1), vel: v(0, 0) };
    e.alert(v(3, 4));
    assert!(e.behaviour.chasing());
    assert_eq!(Chaser::default(), Chaser::Idle);
}
