use spellcore::commands::{parse_world_command, CommandError, WorldCommand};
use spellcore::enemy::{Chaser, Enemy};
use spellcore::explosion::{Explosion, ExplosionInstance, ExplosionState};
use spellcore::geom::{Object, Turn, Vec2, TURN_SCALE};
use spellcore::player::{ActiveSlot, Player};
use spellcore::projectile::{CastResult, Hit, Projectile, ProjectileInstance};
use spellcore::registry::Registry;
use spellcore::spell::{CastType, ChargeUpType, Element, Spell, SpellType};
use spellcore::world::{
    is_descending_below, new_blood, new_blood_with, remove_all, HitOutcome, Progress, World,
};

const EAST: Turn = Turn { cos: TURN_SCALE, sin: 0 };
const WEST: Turn = Turn { cos: -TURN_SCALE, sin: 0 };

fn v(x: i64, y: i64) -> Vec2 {
    Vec2::new(x, y)
}

fn enemy_at(x: i64, y: i64, rot: Turn) -> Enemy {
    let mut p = Player::from_point(v(x, y));
    p.obj.rot = rot;
    Enemy::new(p)
}

fn world(enemies: Vec<Enemy>) -> World {
    World::start(Some(v(0, 0)), None, enemies, vec![], vec![], None)
}

fn registry(cost: u64) -> Registry {
    let spell = Spell {
        id: "bolt".to_string(),
        name: "Bolt".to_string(),
        cast_name: "bolt".to_string(),
        element_type: vec![Element::Fire],
        energy_cost: cost,
        spell_type: SpellType::Projectile,
        cast_type: CastType::ChargeUp { charge_type: vec![ChargeUpType::Damage] },
        cooldown_time: 0,
        charge_time: 250_000,
        cast_snd: "throw".to_string(),
        charge_snd: "ding".to_string(),
        spell_range: 144_000,
        pattern: vec![EAST, Turn { cos: 0, sin: TURN_SCALE }],
    };
    let bolt = Projectile {
        id: "bolt".to_string(),
        damage: 20,
        penetration: 500,
        impact_snd: "impact".to_string(),
        entity_sprite: "spells/bolt".to_string(),
        speed: 1_200_000,
        range: 500_000,
    };
    Registry { spells: vec![spell], projectiles: vec![bolt], explosions: vec![] }
}

fn armed(reg: &Registry) -> World {
    let mut w = world(vec![]);
    let _ = w.player.spell.add_element(Element::Fire);
    w.player.update(&reg.spells);
    w
}

#[test]
fn starts_at_default_point() {
    let w = World::start(None, None, vec![], vec![], vec![], None);
    assert_eq!(w.player.obj.pos, v(500_000, 500_000));
    assert_eq!(w.player.health.hp, 100);
    assert!(w.projectiles.is_empty() && w.explosions.is_empty());
}

#[test]
fn blood_sprites_and_offset() {
    let obj = Object { pos: v(0, 0), rot: EAST };
    let d = new_blood_with(obj, 0);
    assert_eq!(d.obj.pos, v(16_000, 0));
    assert_eq!(d.spr, "common/blood1");
    assert_eq!(new_blood_with(obj, 2).spr, "common/blood2");
    assert_eq!(new_blood_with(obj, 4).spr, "common/blood3");
    let r = new_blood(obj);
    assert_eq!(r.obj.pos, v(16_000, 0));
    assert!(r.spr.starts_with("common/blood"));
}

#[test]
fn removes_indices_highest_first() {
    let mut items = vec!['a', 'b', 'c', 'd'];
    remove_all(&mut items, &vec![3, 1]);
    assert_eq!(items, vec!['a', 'c']);
    assert!(is_descending_below(&vec![3, 1], 4));
    assert!(!is_descending_below(&vec![1, 3], 4));
    assert!(!is_descending_below(&vec![4], 4));
    assert!(!is_descending_below(&vec![2, 2], 4));
}

#[test]
fn picks_up_near_intel() {
    let mut w = World::start(Some(v(0, 0)), None, vec![], vec![v(10_000, 0), v(20_000, 0), v(0, 15_000)], vec![], None);
    assert_eq!(w.pick_up_intels(), 2);
    assert_eq!(w.intels, vec![v(20_000, 0)]);
}

#[test]
fn win_conditions() {
    let mut w = World::start(Some(v(0, 0)), None, vec![], vec![v(90_000, 0)], vec![], Some(v(10_000, 0)));
    assert!(!w.game_won());
    w.clear_intels();
    assert!(w.game_won());
    w.exit = Some(v(32_000, 0));
    assert!(!w.game_won());
    let mut open = world(vec![enemy_at(90_000, 0, EAST)]);
    assert!(!open.game_won());
    open.enemies.clear();
    assert!(open.game_won());
}

#[test]
fn victory_clock() {
    let mut p = Progress { time: 0, victory_time: 0 };
    let s = p.advance(false);
    assert!(!s.victory_sound && !s.win);
    assert_eq!(p.time, 1);
    let s = p.advance(true);
    assert!(s.victory_sound);
    assert_eq!(p.victory_time, 16_667);
    let mut ticks = 1;
    loop {
        let s = p.advance(false);
        ticks += 1;
        assert!(!s.victory_sound);
        if s.win {
            break;
        }
    }
    assert_eq!(ticks, 120);
    assert_eq!(p.time, 1);
}

#[test]
fn backstab_kills() {
    let mut w = world(vec![enemy_at(30_000, 0, EAST)]);
    let r = w.melee();
    assert!(r.backstab && r.killed);
    assert!(w.enemies.is_empty());
    assert_eq!(w.decals.len(), 1);
}

#[test]
fn frontal_stab_hurts() {
    let mut w = world(vec![enemy_at(30_000, 0, WEST), enemy_at(90_000, 0, WEST)]);
    let r = w.melee();
    assert!(!r.backstab && !r.killed);
    assert_eq!((w.enemies[0].pl.health.hp, w.enemies[0].pl.health.armour), (70, 97));
    assert_eq!(w.enemies[1].pl.health.hp, 100);
}

#[test]
fn perception_of_all_enemies() {
    let mut w = world(vec![enemy_at(30_000, 0, EAST), enemy_at(90_000, 0, EAST)]);
    w.perceive_all(&vec![false, true], v(7, 8));
    assert_eq!(w.enemies[0].behaviour, Chaser::Idle);
    assert_eq!(w.enemies[1].behaviour, Chaser::LastKnown { pos: v(0, 0), vel: v(7, 8) });
}

#[test]
fn projectile_kill_removes_enemy() {
    let reg = registry(10_000);
    let mut weak = enemy_at(10_000, 3_000, EAST);
    weak.pl.health.hp = 5;
    weak.pl.health.armour = 0;
    let mut w = World::start(Some(v(0, 100_000)), None, vec![weak], vec![], vec![], None);
    w.projectiles.push(ProjectileInstance { obj: Object { pos: v(0, 0), rot: EAST }, speed: 1_200_000, power: 1000, spell: 0, projectile: 0 });
    let s = w.fly_projectile(0, &reg.projectiles[0], CastResult { point: v(20_000, 0), full: true });
    assert_eq!(s.hit, Hit::Enemy(0));
    assert_eq!(s.outcome, Some(HitOutcome::EnemyKilled));
    assert!(s.remove);
    assert_eq!(s.hole, None);
    assert!(w.enemies.is_empty());
    assert_eq!(w.decals.len(), 1);
    assert!(w.remove_projectiles(&vec![0]));
    assert!(w.projectiles.is_empty());
}

#[test]
fn projectile_hurt_alerts_enemy() {
    let reg = registry(10_000);
    let mut w = World::start(Some(v(0, 100_000)), None, vec![enemy_at(10_000, 3_000, EAST)], vec![], vec![], None);
    w.projectiles.push(ProjectileInstance { obj: Object { pos: v(0, 0), rot: EAST }, speed: 1_200_000, power: 1000, spell: 0, projectile: 0 });
    let s = w.fly_projectile(0, &reg.projectiles[0], CastResult { point: v(20_000, 0), full: true });
    assert_eq!(s.outcome, Some(HitOutcome::EnemyHurt));
    assert_eq!(w.enemies[0].behaviour, Chaser::LookAround { dir: v(-10_000, -3_000) });
}

#[test]
fn blast_resolves_hits() {
    let def = Explosion {
        id: "boom".to_string(),
        start_fuse: 0,
        range: 100_000,
        cos_half: -TURN_SCALE,
        low_damage: 10,
        high_damage: 500,
        penetration: 1000,
        entity_sprite: "fire".to_string(),
        lethal_range: 50_000,
    };
    let mut w = world(vec![enemy_at(80_000, 0, EAST), enemy_at(20_000, 0, EAST)]);
    w.explosions.push(ExplosionInstance {
        cos_half: -TURN_SCALE,
        range: 100_000,
        power: 1000,
        obj: Object { pos: v(0, 200_000), rot: EAST },
        fuse: 0,
        state: ExplosionState::Fused { fuse: 0 },
        spell: 0,
        explosion: 0,
    });
    w.explosions[0].obj.pos = v(40_000, 0);
    let b = w.blast(0, &def, false, &vec![true, true]);
    assert!(b.exploded && !b.dead);
    assert_eq!(b.player, None);
    assert_eq!(b.enemies, vec![HitOutcome::EnemyKilled, HitOutcome::EnemyKilled]);
    assert!(w.enemies.is_empty());
    assert_eq!(w.explosions[0].state, ExplosionState::Explosion { alive_time: 0 });
}

#[test]
fn release_casts_and_spends() {
    let reg = registry(10_000);
    let mut w = armed(&reg);
    let r = w.release_cast(&reg);
    assert!(r.held && r.spawned);
    assert_eq!(w.projectiles.len(), 2);
    assert_eq!(w.projectiles[1].obj.rot, Turn { cos: 0, sin: TURN_SCALE });
    assert_eq!(w.projectiles[1].power, 0);
    assert_eq!(w.projectiles[1].speed, 1_200_000);
    assert_eq!(w.player.energy.cur_energy, 100_000 - 10_000);
}

#[test]
fn release_without_energy_spawns_nothing() {
    let reg = registry(200_000);
    let mut w = armed(&reg);
    let r = w.release_cast(&reg);
    assert!(r.held && !r.spawned);
    assert!(w.projectiles.is_empty());
    assert_eq!(w.player.energy.cur_energy, 100_000);
}

#[test]
fn press_starts_charge_for_energy() {
    let reg = registry(10_000);
    let mut w = armed(&reg);
    assert!(w.begin_charge(&reg));
    assert_eq!(w.player.spell.cur_spell.map(|s| s.being_charged), Some(true));
    assert_eq!(w.player.energy.cur_energy, 90_000);
    let mut empty = world(vec![]);
    assert!(!empty.begin_charge(&reg));
}

#[test]
fn charge_up_spell_does_not_cast_while_held() {
    let reg = registry(10_000);
    let mut w = armed(&reg);
    let r = w.charge_tick(&reg, true);
    assert!(!r.held && !r.spawned);
    assert!(w.projectiles.is_empty());
}

#[test]
fn spawn_fails_for_unknown_definition() {
    let mut reg = registry(10_000);
    reg.projectiles[0].id = "other".to_string();
    let mut w = armed(&reg);
    let r = w.release_cast(&reg);
    assert!(r.held && !r.spawned);
    assert!(w.projectiles.is_empty());
    assert_eq!(reg.find_projectile(&"other".to_string()), Some(0));
    assert_eq!(reg.find_explosion(&"bolt".to_string()), None);
}

#[test]
fn console_commands() {
    let mut w = world(vec![]);
    assert_eq!(parse_world_command(&"ga".to_string()), Some(WorldCommand::GodArmour));
    assert_eq!(parse_world_command(&"hello".to_string()), None);
    let args = |s: &[&str]| s.iter().map(|a| a.to_string()).collect::<Vec<String>>();
    assert_eq!(w.run_world_command(&args(&["elem", "FIRE"])), Ok(true));
    assert_eq!(w.player.spell.slot, Some(Element::Fire));
    assert_eq!(w.run_world_command(&args(&["elem"])), Err(CommandError::InvalidArg));
    assert_eq!(w.run_world_command(&args(&["elem", "earth"])), Err(CommandError::NoSuchElement));
    assert_eq!(w.run_world_command(&args(&["hello"])), Ok(false));
    assert_eq!(w.run_world_command(&args(&["god"])), Ok(true));
    assert!(w.player.health.unlimited_hp);
    assert!(!w.toggle_god());
    assert_eq!(w.player.health.hp, 100);
    assert!(w.toggle_god_armour());
    assert!(!w.toggle_god_armour());
    assert_eq!(w.player.health.armour, 5);
    assert!(w.toggle_god_energy());
    assert!(w.player.energy.unlimited);
    assert!(!w.toggle_god_energy());
    assert_eq!(w.player.energy.cur_energy, 100_000);
    w.player.energy.cur_energy = 3;
    w.full_energy();
    assert_eq!(w.player.energy.cur_energy, 100_000);
    w.player.health.hp = 3;
    assert_eq!(w.run_world_command(&args(&["fa"])), Ok(true));
    assert_eq!((w.player.health.hp, w.player.health.armour), (100, 100));
    assert_eq!(w.player.spell.active, ActiveSlot::Slot);
}

#[test]
fn wall_hit_leaves_a_hole_past_the_stop() {
    let reg = registry(10_000);
    let mut w = World::start(Some(v(0, 100_000)), None, vec![], vec![], vec![], None);
    w.projectiles.push(ProjectileInstance { obj: Object { pos: v(0, 0), rot: EAST }, speed: 1_200_000, power: 1000, spell: 0, projectile: 0 });
    let s = w.fly_projectile(0, &reg.projectiles[0], CastResult { point: v(12_000, 0), full: false });
    assert_eq!(s.hit, Hit::Wall);
    assert!(s.remove);
    assert_eq!(s.hole.map(|h| h.pos), Some(v(17_000, 0)));
    assert_eq!(w.projectiles[0].obj.pos, v(12_000, 0));
    let mut w2 = World::start(Some(v(0, 100_000)), None, vec![], vec![], vec![], None);
    w2.projectiles.push(ProjectileInstance { obj: Object { pos: v(0, 0), rot: EAST }, speed: 1_200_000, power: 1000, spell: 0, projectile: 0 });
    let s2 = w2.fly_projectile(0, &reg.projectiles[0], CastResult { point: v(20_000, 0), full: true });
    assert_eq!(s2.hit, Hit::NoHit);
    assert!(!s2.remove);
    assert_eq!(s2.hole, None);
}

#[test]
fn melee_stops_at_first_kill() {
    let mut weak = enemy_at(20_000, 0, WEST);
    weak.pl.health.hp = 1;
    weak.pl.health.armour = 0;
    let mut w = world(vec![enemy_at(30_000, 0, WEST), weak, enemy_at(10_000, 0, EAST)]);
    let r = w.melee();
    assert!(r.killed && !r.backstab);
    assert_eq!(w.enemies.len(), 2);
    assert_eq!(w.enemies[0].pl.health.hp, 70);
    assert_eq!(w.enemies[1].pl.health.hp, 100);
}

#[test]
fn charge_tick_does_not_advance_charge() {
    let reg = registry(10_000);
    let mut w = armed(&reg);
    w.player.spell.cur_spell.as_mut().unwrap().charged_time = 50_000;
    w.charge_tick(&reg, false);
    assert_eq!(w.player.spell.cur_spell.map(|s| s.charged_time), Some(50_000));
}

#[test]
fn validity_checks() {
    let reg = registry(10_000);
    assert!(reg.is_wf());
    let mut w = armed(&reg);
    assert!(w.is_valid_in(&reg.spells));
    w.player.energy.cur_energy = w.player.energy.max_energy + 1;
    assert!(!w.is_valid_in(&reg.spells));
    let mut bad = registry(10_000);
    bad.projectiles[0].speed = 0;
    assert!(!bad.is_wf());
}
