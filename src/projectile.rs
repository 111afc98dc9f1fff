use vstd::prelude::*;

use crate::enemy::Enemy;
use crate::geom::{near_segment, segment_near, step_along, step_toward, Object, Turn, Vec2, REACH_LIMIT};
use crate::health::{damaged, Health, PEN_SCALE};
use crate::player::Player;
use crate::spell::{axis_factor, factor_for, ChargeUpType, Spell, RATIO_SCALE};
use crate::time::{per_tick, DELTA};

verus! {

/// Speed, in thousandths of a pixel per second, that a projectile loses each
/// tick it flies on (220 pixels per second, per second).
pub const VELOCITY_DECREASE: u64 = 3_666;

/// Distance, in thousandths of a pixel, within which a projectile hits a body.
pub const HIT_RADIUS: i64 = 16_000;

/// Highest speed a projectile may have, in thousandths of a pixel per second.
pub const SPEED_LIMIT: u64 = 1_000_000_000;

/// A projectile definition. Damage is in hit points, penetration in
/// thousandths, speed in thousandths of a pixel per second, the range in
/// thousandths of a pixel.
#[derive(Clone, Debug)]
pub struct Projectile {
    pub id: String,
    pub damage: u32,
    pub penetration: u32,
    pub impact_snd: String,
    pub entity_sprite: String,
    pub speed: u64,
    pub range: u64,
}

impl Projectile {
    /// Penetration is a fraction and the speed is positive and bounded.
    pub open spec fn wf(&self) -> bool {
        self.penetration <= PEN_SCALE && 0 < self.speed <= SPEED_LIMIT
    }

    pub fn is_wf(&self) -> (r: bool)
        ensures
            r == self.wf(),
    {
        self.penetration <= PEN_SCALE && 0 < self.speed && self.speed <= SPEED_LIMIT
    }
}

/// A projectile definition as written in a configuration table.
#[derive(Clone, Debug)]
pub struct ProjectileTemplate {
    pub damage: u32,
    pub penetration: u32,
    pub impact_snd: String,
    pub entity_sprite: String,
    pub speed: u64,
    pub range: u64,
}

/// The impact sound used when a template names none.
pub fn def_impact() -> (r: String)
    ensures
        r@ == "impact"@,
{
    "impact".to_string()
}

/// The speed used when a template gives none: 1200 pixels per second.
pub fn def_speed() -> (r: u64)
    ensures
        r == 1_200_000,
{
    1_200_000
}

impl ProjectileTemplate {
    /// The definition with key `id`.
    pub fn build(self, id: String) -> (r: Projectile)
        ensures
            r.id == id,
            r.damage == self.damage,
            r.penetration == self.penetration,
            r.impact_snd == self.impact_snd,
            r.entity_sprite == self.entity_sprite,
            r.speed == self.speed,
            r.range == self.range,
    {
        let ProjectileTemplate { damage, penetration, impact_snd, entity_sprite, speed, range } =
            self;
        Projectile { id, damage, penetration, impact_snd, entity_sprite, speed, range }
    }
}

/// How a projectile's tick ended.
#[derive(Clone, Copy, Debug, PartialEq, Eq, Structural)]
pub enum Hit {
    Wall,
    Player,
    Enemy(usize),
    NoHit,
}

/// What a ray cast along a projectile's path reports: where the ray stopped,
/// and whether it went the whole way unobstructed.
#[derive(Clone, Copy, Debug, PartialEq, Eq, Structural)]
pub struct CastResult {
    pub point: Vec2,
    pub full: bool,
}

/// A projectile in flight. It flies along `obj.rot` at `speed` thousandths
/// of a pixel per second and deals `power` thousandths of its definition's
/// damage; `spell` and `projectile` index its definitions.
#[derive(Clone, Copy, Debug, PartialEq, Eq, Structural)]
pub struct ProjectileInstance {
    pub obj: Object,
    pub speed: u64,
    pub power: u64,
    pub spell: usize,
    pub projectile: usize,
}

/// Damage of a hit: the definition's damage scaled by the projectile's power
/// and by the share of the definition's speed that is left.
pub open spec fn hit_damage(p: Projectile, power: int, speed: int) -> int {
    let d = p.damage * power * speed / (RATIO_SCALE * p.speed);
    if d > u32::MAX {
        u32::MAX as int
    } else {
        d
    }
}

/// Whether `i` is the first enemy that the segment passes near.
pub open spec fn first_enemy_hit(start: Vec2, d: Vec2, enemies: Seq<Enemy>, i: int) -> bool {
    &&& 0 <= i < enemies.len()
    &&& segment_near(start, d, enemies[i].pl.obj.pos, HIT_RADIUS as int)
    &&& forall|j: int|
        0 <= j < i ==> !segment_near(start, d, #[trigger] enemies[j].pl.obj.pos, HIT_RADIUS as int)
}

/// Every enemy's health is valid and position bounded.
pub open spec fn enemies_ok(enemies: Seq<Enemy>) -> bool {
    forall|j: int|
        0 <= j < enemies.len() ==> (#[trigger] enemies[j]).pl.health.wf()
            && enemies[j].pl.obj.pos.bounded()
}

/// One tick of flight of `p`, whose definition is `def` and whose ray cast
/// is `cast`: how it ended, and the projectile, the player and the enemies
/// after it.
pub open spec fn flown(
    p: ProjectileInstance,
    def: Projectile,
    cast: CastResult,
    player: Player,
    enemies: Seq<Enemy>,
) -> (Hit, ProjectileInstance, Player, Seq<Enemy>) {
    let start = p.obj.pos;
    let d = p.travel();
    let dmg = hit_damage(def, p.power as int, p.speed as int);
    if p.speed <= VELOCITY_DECREASE {
        (Hit::Wall, p, player, enemies)
    } else if segment_near(start, d, player.obj.pos, HIT_RADIUS as int) {
        (
            Hit::Player,
            p,
            Player { health: damaged(player.health, dmg, def.penetration as int), ..player },
            enemies,
        )
    } else if exists|i: int| first_enemy_hit(start, d, enemies, i) {
        let i = choose|i: int| first_enemy_hit(start, d, enemies, i);
        let e = enemies[i];
        (
            Hit::Enemy(i as usize),
            p,
            player,
            enemies.update(
                i,
                Enemy {
                    pl: Player { health: damaged(e.pl.health, dmg, def.penetration as int), ..e.pl },
                    ..e
                },
            ),
        )
    } else {
        (
            if cast.full { Hit::NoHit } else { Hit::Wall },
            ProjectileInstance {
                obj: Object { pos: cast.point, ..p.obj },
                speed: (p.speed - VELOCITY_DECREASE) as u64,
                ..p
            },
            player,
            enemies,
        )
    }
}

impl ProjectileInstance {
    /// Position well inside the bounds, direction within one unit, speed
    /// bounded, power at most full.
    pub open spec fn wf(&self) -> bool {
        self.obj.pos.inner() && self.obj.rot.wf() && self.speed <= SPEED_LIMIT
            && self.power <= RATIO_SCALE
    }

    pub fn is_wf(&self) -> (r: bool)
        ensures
            r == self.wf(),
    {
        self.obj.pos.is_inner() && self.obj.rot.is_wf() && self.speed <= SPEED_LIMIT
            && self.power <= RATIO_SCALE
    }

    /// Where the projectile would move this tick.
    pub open spec fn travel(&self) -> Vec2 {
        step_along(self.obj.rot, per_tick(self.speed as int))
    }

    /// The displacement of this tick, along which the caller casts the ray
    /// that `update` takes.
    pub fn displacement(&self) -> (r: Vec2)
        requires
            self.wf(),
        ensures
            r == self.travel(),
            r.short(),
    {
        let len: u64 = (self.speed as u128 * DELTA as u128 / 1_000_000) as u64;
        proof {
            assert(self.speed as int * DELTA as int / 1_000_000 <= 16_667_000) by (nonlinear_arith)
                requires self.speed <= 1_000_000_000;
        }
        step_toward(self.obj.rot, len)
    }

    /// Deals this projectile's damage to `health`.
    pub fn apply_damage(&self, projectile: &Projectile, health: &mut Health)
        requires
            projectile.wf(),
            self.wf(),
            old(health).wf(),
        ensures
            *final(health) == damaged(
                *old(health),
                hit_damage(*projectile, self.power as int, self.speed as int),
                projectile.penetration as int,
            ),
            final(health).wf(),
    {
        proof {
            assert(projectile.damage as int * self.power as int <= 0xffff_ffff * 1000)
                by (nonlinear_arith)
                requires projectile.damage <= 0xffff_ffff, self.power <= 1000;
            assert(projectile.damage as int * self.power as int * self.speed as int
                <= 0xffff_ffff * 1000 * 1_000_000_000)
                by (nonlinear_arith)
                requires
                    projectile.damage as int * self.power as int <= 0xffff_ffff * 1000,
                    0 <= projectile.damage as int * self.power as int,
                    self.speed <= 1_000_000_000;
        }
        let denom: u128 = RATIO_SCALE as u128 * projectile.speed as u128;
        let raw: u128 = projectile.damage as u128 * self.power as u128 * self.speed as u128 / denom;
        let dmg: u32 = if raw > u32::MAX as u128 {
            u32::MAX
        } else {
            raw as u32
        };
        health.weapon_damage(dmg, projectile.penetration);
    }

    /// One tick of flight. A projectile too slow to go on stops as a wall
    /// hit. Otherwise the first body its path passes near, the player before
    /// the enemies in order, takes the hit; failing that it slows down and
    /// moves to where `cast`, the ray cast along `displacement()`, stopped,
    /// and hits the wall unless that ray went the whole way.
    pub fn update(
        &mut self,
        projectile: &Projectile,
        cast: CastResult,
        player: &mut Player,
        enemies: &mut Vec<Enemy>,
    ) -> (r: Hit)
        requires
            old(self).wf(),
            projectile.wf(),
            cast.point.inner(),
            old(player).health.wf(),
            old(player).obj.pos.bounded(),
            enemies_ok(old(enemies)@),
        ensures
            enemies_ok(final(enemies)@),
            final(player).health.wf(),
            final(self).wf(),
            final(self).speed <= old(self).speed,
            (r, *final(self), *final(player), final(enemies)@) == flown(
                *old(self),
                *projectile,
                cast,
                *old(player),
                old(enemies)@,
            ),
    {
        let start = self.obj.pos;
        let d_pos = self.displacement();
        if self.speed <= VELOCITY_DECREASE {
            return Hit::Wall;
        }
        if near_segment(start, d_pos, player.obj.pos, HIT_RADIUS) {
            self.apply_damage(projectile, &mut player.health);
            return Hit::Player;
        }
        let mut i: usize = 0;
        while i < enemies.len()
            invariant
                i <= enemies.len(),
                enemies@ == old(enemies)@,
                *self == *old(self),
                *player == *old(player),
                projectile.wf(),
                player.health.wf(),
                self.wf(),
                old(self).speed > VELOCITY_DECREASE,
                !segment_near(start, d_pos, old(player).obj.pos, HIT_RADIUS as int),
                start == old(self).obj.pos,
                d_pos == old(self).travel(),
                d_pos.short(),
                start.bounded(),
                enemies_ok(enemies@),
                forall|j: int|
                    0 <= j < i ==> !segment_near(
                        start,
                        d_pos,
                        #[trigger] enemies@[j].pl.obj.pos,
                        HIT_RADIUS as int,
                    ),
            decreases enemies.len() - i,
        {
            let pos = enemies[i].pl.obj.pos;
            if near_segment(start, d_pos, pos, HIT_RADIUS) {
                let mut e = enemies[i];
                self.apply_damage(projectile, &mut e.pl.health);
                enemies[i] = e;
                proof {
                    assert(first_enemy_hit(start, d_pos, old(enemies)@, i as int));
                    let k = choose|k: int| first_enemy_hit(start, d_pos, old(enemies)@, k);
                    assert(k == i) by {
                        if k < i {
                            assert(!segment_near(start, d_pos, old(enemies)@[k].pl.obj.pos, HIT_RADIUS as int));
                        }
                        if k > i {
                            assert(!segment_near(start, d_pos, old(enemies)@[i as int].pl.obj.pos, HIT_RADIUS as int));
                        }
                    }
                    assert forall|j: int| 0 <= j < enemies@.len() implies
                        (#[trigger] enemies@[j]).pl.health.wf() && enemies@[j].pl.obj.pos.bounded() by {
                        if j != i {
                            assert(enemies@[j] == old(enemies)@[j]);
                        }
                    }
                }
                return Hit::Enemy(i);
            }
            i = i + 1;
        }
        proof {
            assert forall|k: int| !first_enemy_hit(start, d_pos, old(enemies)@, k) by {
                if 0 <= k < old(enemies)@.len() {
                    assert(!segment_near(start, d_pos, old(enemies)@[k].pl.obj.pos, HIT_RADIUS as int));
                }
            }
        }
        self.speed = self.speed - VELOCITY_DECREASE;
        self.obj.pos = cast.point;
        if cast.full {
            Hit::NoHit
        } else {
            Hit::Wall
        }
    }
}

/// A cast's request for projectiles: the spell's index and the charge ratio.
#[derive(Clone, Copy, Debug, PartialEq, Eq, Structural)]
pub struct ProjectileMaker(pub usize, pub u64);

/// The projectile that offset `offset` of a cast from `obj` sends out.
pub open spec fn launched(
    obj: Object,
    offset: Turn,
    speed: u64,
    power: u64,
    spell: usize,
    projectile: usize,
) -> ProjectileInstance {
    ProjectileInstance {
        obj: Object { pos: obj.pos, rot: crate::geom::turned(obj.rot, offset) },
        speed,
        power,
        spell,
        projectile,
    }
}

impl ProjectileMaker {
    /// One projectile per offset of the spell's pattern, each leaving `obj`
    /// turned by its offset at the definition's speed; a charge-up cast
    /// scales the speed and the damage by its ratio where it lists them.
    /// `projectile` is the index of `def`.
    pub fn make(self, obj: Object, spell: &Spell, def: &Projectile, projectile: usize) -> (r: Vec<
        ProjectileInstance,
    >)
        requires
            obj.pos.inner(),
            obj.rot.wf(),
            def.speed <= SPEED_LIMIT,
            forall|k: int| 0 <= k < spell.pattern@.len() ==> (#[trigger] spell.pattern@[k]).wf(),
        ensures
            r@.len() == spell.pattern@.len(),
            forall|k: int| 0 <= k < r@.len() ==> (#[trigger] r@[k]).wf(),
            forall|k: int|
                0 <= k < r@.len() ==> #[trigger] r@[k] == launched(
                    obj,
                    spell.pattern@[k],
                    (def.speed * axis_factor(spell.cast_type, ChargeUpType::Speed, self.1 as int) / 1000) as u64,
                    axis_factor(spell.cast_type, ChargeUpType::Damage, self.1 as int) as u64,
                    self.0,
                    projectile,
                ),
    {
        let fs = factor_for(&spell.cast_type, ChargeUpType::Speed, self.1);
        let power = factor_for(&spell.cast_type, ChargeUpType::Damage, self.1);
        proof {
            assert(def.speed as int * fs as int <= 1_000_000_000 * 1000) by (nonlinear_arith)
                requires def.speed <= 1_000_000_000, fs <= 1000;
            assert(def.speed as int * fs as int / 1000 <= def.speed) by (nonlinear_arith)
                requires fs <= 1000;
        }
        let speed: u64 = (def.speed as u128 * fs as u128 / RATIO_SCALE as u128) as u64;
        let mut out: Vec<ProjectileInstance> = Vec::new();
        let mut k: usize = 0;
        while k < spell.pattern.len()
            invariant
                k <= spell.pattern@.len(),
                obj.pos.inner(),
                obj.rot.wf(),
                def.speed <= SPEED_LIMIT,
                forall|m: int| 0 <= m < spell.pattern@.len() ==> (#[trigger] spell.pattern@[m]).wf(),
                out@.len() == k,
                forall|m: int| 0 <= m < k ==> (#[trigger] out@[m]).wf(),
                forall|m: int|
                    0 <= m < k ==> #[trigger] out@[m] == launched(
                        obj,
                        spell.pattern@[m],
                        speed,
                        power,
                        self.0,
                        projectile,
                    ),
                speed == (def.speed * axis_factor(spell.cast_type, ChargeUpType::Speed, self.1 as int) / 1000) as u64,
                speed <= SPEED_LIMIT,
                power == axis_factor(spell.cast_type, ChargeUpType::Damage, self.1 as int),
                power <= RATIO_SCALE,
            decreases spell.pattern@.len() - k,
        {
            let rot = obj.rot.turn_by(spell.pattern[k]);
            out.push(
                ProjectileInstance {
                    obj: Object { pos: obj.pos, rot },
                    speed,
                    power,
                    spell: self.0,
                    projectile,
                },
            );
            k = k + 1;
        }
        out
    }
}

} // verus!
