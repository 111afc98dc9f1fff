use vstd::prelude::*;

use crate::enemy::Enemy;
use crate::geom::{
    diff, in_cone, norm_sq, offset, step_along, step_toward, sum, turned, within_cone, Object, Turn,
    Vec2, REACH_LIMIT, TURN_SCALE,
};
use crate::health::{damaged, Health, PEN_SCALE};
use crate::player::Player;
use crate::projectile::enemies_ok;
use crate::spell::{axis_factor, factor_for, ChargeUpType, Spell, RATIO_SCALE};
use crate::time::DELTA;

verus! {

/// How long, in microseconds, the burst of an explosion stays in the world.
pub const EXPLOSION_LIFETIME: u64 = 500_000;

/// An explosion definition. Damage is in hit points, penetration in
/// thousandths, times in microseconds, distances in thousandths of a pixel;
/// `cos_half` is the cosine of half the sector it covers, in units of
/// `1 / TURN_SCALE` (`-TURN_SCALE` covers the full circle).
#[derive(Clone, Debug)]
pub struct Explosion {
    pub id: String,
    pub start_fuse: u64,
    pub range: u64,
    pub cos_half: i64,
    pub low_damage: u32,
    pub high_damage: u32,
    pub penetration: u32,
    pub entity_sprite: String,
    pub lethal_range: u64,
}

impl Explosion {
    /// Penetration is a fraction, the sector cosine lies within one unit and
    /// the range is bounded.
    pub open spec fn wf(&self) -> bool {
        &&& self.penetration <= PEN_SCALE
        &&& -TURN_SCALE <= self.cos_half <= TURN_SCALE
        &&& self.range <= REACH_LIMIT
        &&& self.lethal_range <= REACH_LIMIT
    }

    pub fn is_wf(&self) -> (r: bool)
        ensures
            r == self.wf(),
    {
        self.penetration <= PEN_SCALE && -TURN_SCALE <= self.cos_half && self.cos_half <= TURN_SCALE
            && self.range <= REACH_LIMIT as u64 && self.lethal_range <= REACH_LIMIT as u64
    }
}

/// An explosion definition as written in a configuration table.
#[derive(Clone, Debug)]
pub struct ExplosionTemplate {
    pub low_damage: u32,
    pub high_damage: u32,
    pub penetration: u32,
    pub start_fuse: u64,
    pub entity_sprite: String,
    pub range: u64,
    pub cos_half: i64,
    pub lethal_range: u64,
}

impl ExplosionTemplate {
    /// The definition with key `id`.
    pub fn build(self, id: String) -> (r: Explosion)
        ensures
            r.id == id,
            r.low_damage == self.low_damage,
            r.high_damage == self.high_damage,
            r.penetration == self.penetration,
            r.start_fuse == self.start_fuse,
            r.entity_sprite == self.entity_sprite,
            r.range == self.range,
            r.cos_half == self.cos_half,
            r.lethal_range == self.lethal_range,
    {
        let ExplosionTemplate {
            low_damage,
            high_damage,
            penetration,
            start_fuse,
            entity_sprite,
            range,
            cos_half,
            lethal_range,
        } = self;
        Explosion {
            id,
            start_fuse,
            range,
            cos_half,
            low_damage,
            high_damage,
            penetration,
            entity_sprite,
            lethal_range,
        }
    }
}

/// The sector cosine of a definition that gives none: the full circle.
pub fn def_cos_half() -> (r: i64)
    ensures
        r == -TURN_SCALE,
{
    -TURN_SCALE
}

/// Where an explosion is in its life.
#[derive(Clone, Copy, Debug, PartialEq, Eq, Structural)]
pub enum ExplosionState {
    /// Waiting for the fuse it was lit with.
    Fused { fuse: u64 },
    /// Bursting, for `alive_time` microseconds so far.
    Explosion { alive_time: u64 },
}

/// A placed explosion: it reaches `range` thousandths of a pixel and deals
/// `power` thousandths of its definition's damage; `spell` and `explosion`
/// index its definitions.
#[derive(Clone, Copy, Debug, PartialEq, Eq, Structural)]
pub struct ExplosionInstance {
    pub cos_half: i64,
    pub range: u64,
    pub power: u64,
    pub obj: Object,
    pub fuse: u64,
    pub state: ExplosionState,
    pub spell: usize,
    pub explosion: usize,
}

/// What a tick of an explosion did.
#[derive(Clone, Debug)]
pub enum ExplosionUpdate {
    /// The fuse ran out: whether the player was hit, and the indices of the
    /// enemies hit, highest first.
    Explosion { player_hit: bool, enemy_hits: Vec<usize> },
    /// The burst is over; the explosion leaves the world.
    Dead,
    /// Nothing happened.
    Nothing,
}

/// Whether an explosion at `centre` facing `rot` with sector cosine
/// `cos_half` and reach `range` hits a body at `target`: the body is within
/// range, inside the sector, and `visible` (the ray from the centre to it is
/// unobstructed).
pub open spec fn blast_hits(
    centre: Vec2,
    rot: Turn,
    cos_half: int,
    range: int,
    visible: bool,
    target: Vec2,
) -> bool {
    let d = diff(target, centre);
    norm_sq(d) < range * range && visible && in_cone(rot, d, cos_half)
}

/// Damage dealt at `target` with `power` thousandths of the definition's
/// damage: the high damage within the lethal range, the low damage beyond it.
pub open spec fn blast_damage(e: Explosion, power: int, centre: Vec2, target: Vec2) -> int {
    if norm_sq(diff(target, centre)) <= e.lethal_range * e.lethal_range {
        e.high_damage * power / (RATIO_SCALE as int)
    } else {
        e.low_damage * power / (RATIO_SCALE as int)
    }
}

/// A body after an explosion's fuse ran out: damaged if the explosion hit it
/// (`visible` being the ray cast from the centre to it).
pub open spec fn blasted(x: ExplosionInstance, def: Explosion, visible: bool, p: Player) -> Player {
    if x.hits(visible, p.obj.pos) {
        Player {
            health: damaged(p.health, blast_damage(def, x.power as int, x.obj.pos, p.obj.pos), def.penetration as int),
            ..p
        }
    } else {
        p
    }
}

/// The explosion after a tick: a burst ages (saturating), a lit fuse burns
/// down by a tick, and a fuse with a tick or less left goes out and starts
/// the burst.
pub open spec fn aged(x: ExplosionInstance) -> ExplosionInstance {
    match x.state {
        ExplosionState::Explosion { alive_time } => ExplosionInstance {
            state: ExplosionState::Explosion {
                alive_time: if alive_time + DELTA > u64::MAX {
                    u64::MAX
                } else {
                    (alive_time + DELTA) as u64
                },
            },
            ..x
        },
        ExplosionState::Fused { .. } => if x.fuse > DELTA {
            ExplosionInstance { fuse: (x.fuse - DELTA) as u64, ..x }
        } else {
            ExplosionInstance { fuse: 0, state: ExplosionState::Explosion { alive_time: 0 }, ..x }
        },
    }
}

/// Whether the burst of `x` is over after this tick.
pub open spec fn burst_over(x: ExplosionInstance) -> bool {
    x.state is Explosion && aged(x).state->alive_time >= EXPLOSION_LIFETIME
}

impl ExplosionInstance {
    /// Centre bounded, direction within one unit, sector cosine in range,
    /// reach bounded, power at most full.
    pub open spec fn wf(&self) -> bool {
        &&& self.obj.pos.bounded()
        &&& self.obj.rot.wf()
        &&& -TURN_SCALE <= self.cos_half <= TURN_SCALE
        &&& self.range <= REACH_LIMIT
        &&& self.power <= RATIO_SCALE
    }

    pub fn is_wf(&self) -> (r: bool)
        ensures
            r == self.wf(),
    {
        self.obj.pos.is_bounded() && self.obj.rot.is_wf() && -TURN_SCALE <= self.cos_half
            && self.cos_half <= TURN_SCALE && self.range <= REACH_LIMIT as u64
            && self.power <= RATIO_SCALE
    }

    /// Whether this explosion hits a body at `target`.
    pub open spec fn hits(&self, visible: bool, target: Vec2) -> bool {
        blast_hits(self.obj.pos, self.obj.rot, self.cos_half as int, self.range as int, visible, target)
    }

    /// Indices in `lo..hi` of the enemies that the explosion hits, highest
    /// first.
    pub open spec fn hits_from(
        &self,
        visible: Seq<bool>,
        enemies: Seq<Enemy>,
        lo: int,
        hi: int,
    ) -> Seq<usize>
        decreases hi - lo,
    {
        if hi <= lo {
            Seq::empty()
        } else {
            let rest = self.hits_from(visible, enemies, lo + 1, hi);
            if self.hits(visible[lo], enemies[lo].pl.obj.pos) {
                rest.push(lo as usize)
            } else {
                rest
            }
        }
    }

    /// Deals this explosion's damage to `health`, the high damage when
    /// `high`, scaled by its power.
    pub fn apply_damage(&self, def: &Explosion, health: &mut Health, high: bool)
        requires
            self.wf(),
            def.wf(),
            old(health).wf(),
        ensures
            *final(health) == damaged(
                *old(health),
                (if high { def.high_damage as int } else { def.low_damage as int }) * self.power as int
                    / (RATIO_SCALE as int),
                def.penetration as int,
            ),
            final(health).wf(),
    {
        let base: u32 = if high {
            def.high_damage
        } else {
            def.low_damage
        };
        proof {
            assert(base as int * self.power as int / 1000 <= base) by (nonlinear_arith)
                requires self.power <= 1000;
            assert(base as int * self.power as int <= 0xffff_ffff * 1000) by (nonlinear_arith)
                requires self.power <= 1000, base <= 0xffff_ffff;
        }
        let amount: u32 = (base as u64 * self.power / RATIO_SCALE) as u32;
        health.weapon_damage(amount, def.penetration);
    }

    /// Whether the explosion hits a body at `target`; `visible` is whether
    /// the ray cast from the centre to `target` is unobstructed.
    pub fn is_pos_hit(&self, def: &Explosion, visible: bool, target: Vec2) -> (r: bool)
        requires
            self.wf(),
            def.wf(),
            target.bounded(),
        ensures
            r == self.hits(visible, target),
    {
        let dx: i128 = target.x as i128 - self.obj.pos.x as i128;
        let dy: i128 = target.y as i128 - self.obj.pos.y as i128;
        let range: i128 = self.range as i128;
        proof {
            crate::geom::lemma_mul_within(dx as int, dx as int, 0x8000_0000, 0x8000_0000);
            crate::geom::lemma_mul_within(dy as int, dy as int, 0x8000_0000, 0x8000_0000);
            crate::geom::lemma_mul_within(range as int, range as int, REACH_LIMIT as int, REACH_LIMIT as int);
        }
        if !(dx * dx + dy * dy < range * range) || !visible {
            return false;
        }
        proof {
            assert(-REACH_LIMIT <= dx <= REACH_LIMIT) by (nonlinear_arith)
                requires dx * dx + dy * dy < range * range, 0 <= range <= REACH_LIMIT, dy * dy >= 0;
            assert(-REACH_LIMIT <= dy <= REACH_LIMIT) by (nonlinear_arith)
                requires dx * dx + dy * dy < range * range, 0 <= range <= REACH_LIMIT, dx * dx >= 0;
        }
        let d = Vec2 { x: dx as i64, y: dy as i64 };
        within_cone(self.obj.rot, d, self.cos_half)
    }

    /// One tick of a lit fuse. While more than a tick is left it only burns
    /// down. Otherwise the fuse goes out and the explosion hits the player
    /// and each enemy that it reaches (`player_visible` and `enemy_visible`
    /// are the ray casts from the centre to each of them), dealing high
    /// damage within the lethal range and low damage beyond.
    pub fn update_fused(
        &mut self,
        def: &Explosion,
        player_visible: bool,
        enemy_visible: &Vec<bool>,
        player: &mut Player,
        enemies: &mut Vec<Enemy>,
    ) -> (r: ExplosionUpdate)
        requires
            old(self).wf(),
            def.wf(),
            old(player).health.wf(),
            old(player).obj.pos.bounded(),
            enemies_ok(old(enemies)@),
            enemy_visible@.len() == old(enemies)@.len(),
        ensures
            final(self).wf(),
            final(player).health.wf(),
            enemies_ok(final(enemies)@),
            final(enemies)@.len() == old(enemies)@.len(),
            *final(player) == (Player { health: final(player).health, ..*old(player) }),
            forall|j: int| 0 <= j < old(enemies)@.len() ==> #[trigger] final(enemies)@[j] == (Enemy {
                pl: Player { health: final(enemies)@[j].pl.health, ..old(enemies)@[j].pl },
                ..old(enemies)@[j]
            }),
            old(self).fuse > DELTA ==> {
                &&& r is Nothing
                &&& *final(self) == (ExplosionInstance { fuse: (old(self).fuse - DELTA) as u64, ..*old(self) })
                &&& *final(player) == *old(player)
                &&& final(enemies)@ == old(enemies)@
            },
            old(self).fuse <= DELTA ==> {
                let player_hit = old(self).hits(player_visible, old(player).obj.pos);
                &&& *final(self) == (ExplosionInstance { fuse: 0, ..*old(self) })
                &&& r matches ExplosionUpdate::Explosion { player_hit: ph, enemy_hits }
                    && ph == player_hit
                    && enemy_hits@ == old(self).hits_from(enemy_visible@, old(enemies)@, 0, old(enemies)@.len() as int)
                &&& *final(player) == blasted(*old(self), *def, player_visible, *old(player))
                &&& forall|j: int| 0 <= j < old(enemies)@.len() ==> final(enemies)@[j] == (Enemy {
                    pl: blasted(*old(self), *def, enemy_visible@[j], (#[trigger] old(enemies)@[j]).pl),
                    ..old(enemies)@[j]
                })
            },
    {
        if self.fuse > DELTA {
            self.fuse = self.fuse - DELTA;
            return ExplosionUpdate::Nothing;
        }
        self.fuse = 0;
        let start = self.obj.pos;
        let player_hit = self.is_pos_hit(def, player_visible, player.obj.pos);
        if player_hit {
            let close = within_lethal(def, start, player.obj.pos);
            self.apply_damage(def, &mut player.health, close);
        }
        let mut enemy_hits: Vec<usize> = Vec::new();
        let n = enemies.len();
        let mut i: usize = n;
        while i > 0
            invariant
                i <= n,
                n == old(enemies)@.len(),
                enemies@.len() == n,
                enemy_visible@.len() == n,
                self.wf(),
                def.wf(),
                *self == (ExplosionInstance { fuse: 0, ..*old(self) }),
                start == old(self).obj.pos,
                enemies_ok(enemies@),
                enemies_ok(old(enemies)@),
                enemy_hits@ == old(self).hits_from(enemy_visible@, old(enemies)@, i as int, n as int),
                forall|j: int| 0 <= j < i ==> enemies@[j] == old(enemies)@[j],
                forall|j: int| i <= j < n ==> enemies@[j] == (Enemy {
                    pl: blasted(*old(self), *def, enemy_visible@[j], (#[trigger] old(enemies)@[j]).pl),
                    ..old(enemies)@[j]
                }),
            decreases i,
        {
            i = i - 1;
            let mut e = enemies[i];
            proof {
                assert(e == old(enemies)@[i as int]);
            }
            if self.is_pos_hit(def, enemy_visible[i], e.pl.obj.pos) {
                let close = within_lethal(def, start, e.pl.obj.pos);
                self.apply_damage(def, &mut e.pl.health, close);
                enemies[i] = e;
                enemy_hits.push(i);
            }
        }
        ExplosionUpdate::Explosion { player_hit, enemy_hits }
    }

    /// One tick: a burst ages and is dead once its lifetime is over; a lit
    /// fuse burns as `update_fused` says, and when it goes out the explosion
    /// starts its burst.
    pub fn update(
        &mut self,
        def: &Explosion,
        player_visible: bool,
        enemy_visible: &Vec<bool>,
        player: &mut Player,
        enemies: &mut Vec<Enemy>,
    ) -> (r: ExplosionUpdate)
        requires
            old(self).wf(),
            def.wf(),
            old(player).health.wf(),
            old(player).obj.pos.bounded(),
            enemies_ok(old(enemies)@),
            enemy_visible@.len() == old(enemies)@.len(),
        ensures
            final(self).wf(),
            final(player).health.wf(),
            enemies_ok(final(enemies)@),
            final(enemies)@.len() == old(enemies)@.len(),
            *final(player) == (Player { health: final(player).health, ..*old(player) }),
            forall|j: int| 0 <= j < old(enemies)@.len() ==> #[trigger] final(enemies)@[j] == (Enemy {
                pl: Player { health: final(enemies)@[j].pl.health, ..old(enemies)@[j].pl },
                ..old(enemies)@[j]
            }),
            old(self).state matches ExplosionState::Explosion { alive_time } ==> {
                let t = if alive_time + DELTA > u64::MAX { u64::MAX as int } else { alive_time + DELTA };
                &&& final(self).state == ExplosionState::Explosion { alive_time: t as u64 }
                &&& (if t >= EXPLOSION_LIFETIME { r is Dead } else { r is Nothing })
                &&& *final(player) == *old(player)
                &&& final(enemies)@ == old(enemies)@
            },
            r is Explosion ==> old(self).state is Fused && old(self).fuse <= DELTA,
            *final(self) == aged(*old(self)),
            (r is Dead) == burst_over(*old(self)),
            !(r is Explosion) ==> *final(player) == *old(player) && final(enemies)@ == old(enemies)@,
            old(self).state is Fused ==> {
                &&& (old(self).fuse > DELTA ==> r is Nothing && final(self).state == old(self).state)
                &&& (old(self).fuse <= DELTA ==> final(self).state
                    == ExplosionState::Explosion { alive_time: 0 })
                &&& (old(self).fuse <= DELTA ==> *final(player) == blasted(*old(self), *def, player_visible, *old(player)))
                &&& (old(self).fuse <= DELTA ==> forall|j: int| 0 <= j < old(enemies)@.len() ==> final(enemies)@[j] == (Enemy {
                    pl: blasted(*old(self), *def, enemy_visible@[j], (#[trigger] old(enemies)@[j]).pl),
                    ..old(enemies)@[j]
                }))
                &&& (old(self).fuse <= DELTA ==> (r matches ExplosionUpdate::Explosion { player_hit, enemy_hits }
                    && player_hit == old(self).hits(player_visible, old(player).obj.pos)
                    && enemy_hits@ == old(self).hits_from(enemy_visible@, old(enemies)@, 0, old(enemies)@.len() as int)))
            },
    {
        match self.state {
            ExplosionState::Explosion { alive_time } => {
                let t: u64 = if alive_time > u64::MAX - DELTA {
                    u64::MAX
                } else {
                    alive_time + DELTA
                };
                self.state = ExplosionState::Explosion { alive_time: t };
                if t >= EXPLOSION_LIFETIME {
                    ExplosionUpdate::Dead
                } else {
                    ExplosionUpdate::Nothing
                }
            },
            ExplosionState::Fused { .. } => {
                let update = self.update_fused(def, player_visible, enemy_visible, player, enemies);
                if let ExplosionUpdate::Explosion { .. } = update {
                    self.state = ExplosionState::Explosion { alive_time: 0 };
                }
                update
            },
        }
    }
}

/// The enemies an explosion hits are listed highest index first, each once,
/// all within `lo..hi`.
pub proof fn lemma_hits_descending(
    x: ExplosionInstance,
    visible: Seq<bool>,
    enemies: Seq<Enemy>,
    lo: int,
    hi: int,
)
    requires
        0 <= lo,
        hi <= usize::MAX,
    ensures
        forall|k: int|
            0 <= k < x.hits_from(visible, enemies, lo, hi).len() ==> lo <= (#[trigger] x.hits_from(
                visible,
                enemies,
                lo,
                hi,
            )[k]) < hi,
        forall|k: int, m: int|
            0 <= k < m < x.hits_from(visible, enemies, lo, hi).len() ==> x.hits_from(
                visible,
                enemies,
                lo,
                hi,
            )[k] > x.hits_from(visible, enemies, lo, hi)[m],
    decreases hi - lo,
{
    if lo < hi {
        lemma_hits_descending(x, visible, enemies, lo + 1, hi);
        let rest = x.hits_from(visible, enemies, lo + 1, hi);
        let full = x.hits_from(visible, enemies, lo, hi);
        if x.hits(visible[lo], enemies[lo].pl.obj.pos) {
            assert(full == rest.push(lo as usize));
            assert forall|k: int| 0 <= k < full.len() implies lo <= (#[trigger] full[k]) < hi by {
                if k < rest.len() {
                    assert(full[k] == rest[k]);
                }
            }
            assert forall|k: int, m: int| 0 <= k < m < full.len() implies full[k] > full[m] by {
                assert(full[k] == rest[k]);
                if m < rest.len() {
                    assert(full[m] == rest[m]);
                }
            }
        } else {
            assert(full == rest);
        }
    }
}

/// Which enemies an explosion hits when its fuse runs out depends only on
/// where it is, where the enemies are and what the level lets it see: two
/// enemy lists with the same positions get the same hit list, whatever
/// else differs between them.
pub proof fn lemma_hit_set_determined(
    x: ExplosionInstance,
    visible: Seq<bool>,
    a: Seq<Enemy>,
    b: Seq<Enemy>,
    lo: int,
    hi: int,
)
    requires
        a.len() == b.len(),
        forall|j: int| 0 <= j < a.len() ==> (#[trigger] a[j]).pl.obj.pos == b[j].pl.obj.pos,
        0 <= lo,
        hi <= a.len(),
    ensures
        x.hits_from(visible, a, lo, hi) == x.hits_from(visible, b, lo, hi),
    decreases hi - lo,
{
    if lo < hi {
        lemma_hit_set_determined(x, visible, a, b, lo + 1, hi);
        assert(a[lo].pl.obj.pos == b[lo].pl.obj.pos);
    }
}

/// A cast's request for explosions: the spell's index and the charge ratio.
#[derive(Clone, Copy, Debug, PartialEq, Eq, Structural)]
pub struct ExplosionMaker(pub usize, pub u64);

/// The explosion that offset `offset` of a cast from `obj` places: turned by
/// the offset and pushed out by the spell's range, its fuse lit, reaching
/// `range` and dealing `power` thousandths of the definition's damage.
pub open spec fn placed(
    obj: Object,
    offset: Turn,
    spell_range: u64,
    def: Explosion,
    power: u64,
    range: u64,
    spell: usize,
    explosion: usize,
) -> ExplosionInstance {
    let rot = turned(obj.rot, offset);
    ExplosionInstance {
        cos_half: def.cos_half,
        range,
        power,
        obj: Object { pos: sum(obj.pos, step_along(rot, spell_range as int)), rot },
        fuse: def.start_fuse,
        state: ExplosionState::Fused { fuse: def.start_fuse },
        spell,
        explosion,
    }
}

impl ExplosionMaker {
    /// One explosion per offset of the spell's pattern; a charge-up cast
    /// scales the damage and the reach by its ratio where it lists them (the
    /// sector, held as a cosine, keeps its width). `explosion` is the index
    /// of `def`.
    pub fn make(self, obj: Object, spell: &Spell, def: &Explosion, explosion: usize) -> (r: Vec<
        ExplosionInstance,
    >)
        requires
            obj.pos.inner(),
            obj.rot.wf(),
            def.wf(),
            spell.spell_range <= REACH_LIMIT,
            forall|k: int| 0 <= k < spell.pattern@.len() ==> (#[trigger] spell.pattern@[k]).wf(),
        ensures
            r@.len() == spell.pattern@.len(),
            forall|k: int|
                0 <= k < r@.len() ==> #[trigger] r@[k] == placed(
                    obj,
                    spell.pattern@[k],
                    spell.spell_range,
                    *def,
                    axis_factor(spell.cast_type, ChargeUpType::Damage, self.1 as int) as u64,
                    (def.range * axis_factor(spell.cast_type, ChargeUpType::Range, self.1 as int) / 1000) as u64,
                    self.0,
                    explosion,
                ) && r@[k].wf(),
    {
        let power = factor_for(&spell.cast_type, ChargeUpType::Damage, self.1);
        let fr = factor_for(&spell.cast_type, ChargeUpType::Range, self.1);
        proof {
            assert(def.range as int * fr as int / 1000 <= def.range) by (nonlinear_arith)
                requires fr <= 1000;
        }
        let range: u64 = (def.range as u128 * fr as u128 / RATIO_SCALE as u128) as u64;
        let mut out: Vec<ExplosionInstance> = Vec::new();
        let mut k: usize = 0;
        while k < spell.pattern.len()
            invariant
                k <= spell.pattern@.len(),
                obj.pos.inner(),
                obj.rot.wf(),
                def.wf(),
                spell.spell_range <= REACH_LIMIT,
                power == axis_factor(spell.cast_type, ChargeUpType::Damage, self.1 as int),
                power <= RATIO_SCALE,
                range == (def.range * axis_factor(spell.cast_type, ChargeUpType::Range, self.1 as int) / 1000) as u64,
                range <= REACH_LIMIT,
                forall|m: int| 0 <= m < spell.pattern@.len() ==> (#[trigger] spell.pattern@[m]).wf(),
                out@.len() == k,
                forall|m: int|
                    0 <= m < k ==> #[trigger] out@[m] == placed(
                        obj,
                        spell.pattern@[m],
                        spell.spell_range,
                        *def,
                        power,
                        range,
                        self.0,
                        explosion,
                    ) && out@[m].wf(),
            decreases spell.pattern@.len() - k,
        {
            let rot = obj.rot.turn_by(spell.pattern[k]);
            let pos = offset(obj.pos, step_toward(rot, spell.spell_range));
            out.push(
                ExplosionInstance {
                    cos_half: def.cos_half,
                    range,
                    power,
                    obj: Object { pos, rot },
                    fuse: def.start_fuse,
                    state: ExplosionState::Fused { fuse: def.start_fuse },
                    spell: self.0,
                    explosion,
                },
            );
            k = k + 1;
        }
        out
    }
}

/// Whether `target` lies within the lethal range of an explosion at `centre`.
fn within_lethal(def: &Explosion, centre: Vec2, target: Vec2) -> (r: bool)
    requires
        def.wf(),
        centre.bounded(),
        target.bounded(),
    ensures
        r == (norm_sq(diff(target, centre)) <= def.lethal_range * def.lethal_range),
{
    let dx: i128 = target.x as i128 - centre.x as i128;
    let dy: i128 = target.y as i128 - centre.y as i128;
    let l: i128 = def.lethal_range as i128;
    proof {
        crate::geom::lemma_mul_within(dx as int, dx as int, 0x8000_0000, 0x8000_0000);
        crate::geom::lemma_mul_within(dy as int, dy as int, 0x8000_0000, 0x8000_0000);
        crate::geom::lemma_mul_within(l as int, l as int, REACH_LIMIT as int, REACH_LIMIT as int);
    }
    dx * dx + dy * dy <= l * l
}

} // verus!
