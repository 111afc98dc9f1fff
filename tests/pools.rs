use spellcore::energy::Energy;
use spellcore::health::Health;

fn health(hp: i64, armour: i64) -> Health {
    Health { hp, armour, unlimited_hp: false, unlimited_armour: false }
}

#[test]
fn half_penetration_splits_damage() {
    let mut h = health(100, 100);
    h.weapon_damage(50, 500);
    assert_eq!(h.armour, 75);
    assert_eq!(h.hp, 75);
}

#[test]
fn thin_armour_spills_into_hp() {
    let mut h = health(100, 10);
    h.weapon_damage(50, 500);
    assert_eq!(h.armour, 0);
    assert_eq!(h.hp, 60);
    assert_eq!(100 + 10 - (h.hp + h.armour), 50);
}

#[test]
fn full_penetration_skips_armour() {
    let mut h = health(100, 100);
    h.weapon_damage(30, 1000);
    assert_eq!(h.armour, 100);
    assert_eq!(h.hp, 70);
}

#[test]
fn no_penetration_stays_in_armour() {
    let mut h = health(100, 100);
    h.weapon_damage(40, 0);
    assert_eq!(h.armour, 60);
    assert_eq!(h.hp, 100);
}

#[test]
fn damage_is_conserved_on_many_inputs() {
    for amount in [0u32, 1, 7, 50, 99, 250] {
        for pen in [0u32, 1, 333, 500, 920, 1000] {
            let mut h = health(120, 40);
            h.weapon_damage(amount, pen);
            assert!(h.armour >= 0);
            assert_eq!(160 - (h.hp + h.armour), amount as i64);
            if amount <= 120 {
                assert!(h.hp >= 0);
            }
        }
    }
}

#[test]
fn unlimited_pools_take_no_loss() {
    let mut h = Health { hp: 100, armour: 100, unlimited_hp: true, unlimited_armour: true };
    h.weapon_damage(500, 500);
    assert_eq!(h.hp, 100);
    assert_eq!(h.armour, 100);
    assert!(!h.is_dead());
}

#[test]
fn death_at_zero_hp() {
    assert!(health(0, 10).is_dead());
    assert!(health(-3, 0).is_dead());
    assert!(!health(1, 0).is_dead());
    let mut h = health(10, 0);
    h.weapon_damage(50, 1000);
    assert_eq!(h.hp, -40);
    assert!(h.is_dead());
}

#[test]
fn default_health_is_full() {
    let h = Health::default();
    assert_eq!((h.hp, h.armour), (100, 100));
}

fn energy(cur: u64, max: u64, regain: u64) -> Energy {
    Energy { cur_energy: cur, max_energy: max, energy_regain: regain, unlimited: false }
}

#[test]
fn spend_fails_without_enough_energy() {
    let mut e = energy(30_000, 100_000, 7_500);
    assert!(!e.try_to_use_energy(50_000));
    assert_eq!(e.cur_energy, 30_000);
}

#[test]
fn spend_takes_whole_amount() {
    let mut e = energy(30_000, 100_000, 7_500);
    assert!(e.try_to_use_energy(30_000));
    assert_eq!(e.cur_energy, 0);
    assert!(!e.try_to_use_energy(1));
    assert_eq!(e.cur_energy, 0);
}

#[test]
fn unlimited_energy_always_pays() {
    let mut e = Energy { unlimited: true, ..energy(0, 0, 0) };
    assert!(e.try_to_use_energy(1_000_000));
    assert_eq!(e.cur_energy, 0);
}

#[test]
fn regen_gains_one_tick() {
    let mut e = energy(50_000, 100_000, 7_500);
    e.update();
    assert_eq!(e.cur_energy, 50_125);
}

#[test]
fn regen_stops_at_max() {
    let mut e = energy(99_990, 100_000, 7_500);
    e.update();
    assert_eq!(e.cur_energy, 100_000);
    e.update();
    assert_eq!(e.cur_energy, 100_000);
    let mut fast = energy(0, 1_000, 1_000_000_000);
    fast.update();
    assert_eq!(fast.cur_energy, 1_000);
}

#[test]
fn default_energy_is_full() {
    let e = Energy::default();
    assert_eq!((e.cur_energy, e.max_energy, e.energy_regain), (100_000, 100_000, 7_500));
    assert!(!e.unlimited);
}
