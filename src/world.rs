use vstd::prelude::*;

use crate::enemy::{Chaser, Enemy};
use crate::energy::spent;
use crate::explosion::{
    aged, blasted, burst_over, lemma_hits_descending, placed, Explosion, ExplosionInstance, ExplosionUpdate,
};
use crate::geom::{
    diff, dot, norm_sq, offset, step_along, step_toward, sum, Object, Vec2, COORD_LIMIT, TURN_SCALE,
};
use crate::health::damaged;
use crate::player::{ElemSlots, Player};
use crate::projectile::{flown, launched, CastResult, Hit, Projectile, ProjectileInstance};
use crate::registry::{first_explosion, first_projectile, Registry};
use crate::spell::{axis_factor, cast_result, CastType, ChargeUpType, ObjMaker, SpellInstance};
use crate::time::DELTA;

verus! {

/// Distance, in thousandths of a pixel, at which the player picks up intel.
pub const PICKUP_RADIUS: i64 = 15_000;

/// Distance, in thousandths of a pixel, from the exit within which the level
/// is won.
pub const EXIT_RADIUS: i64 = 32_000;

/// How far, in thousandths of a pixel, a blood decal lies ahead of what bled.
pub const BLOOD_OFFSET: u64 = 16_000;

/// A mark left on the floor.
#[derive(Clone, Debug)]
pub struct Decal {
    pub obj: Object,
    pub spr: String,
}

/// The blood sprite that draw `pick` (below 5) selects; the middle two
/// sprites are twice as likely as the first.
pub open spec fn blood_sprite(pick: int) -> Seq<char> {
    if pick == 0 {
        "common/blood1"@
    } else if pick <= 2 {
        "common/blood2"@
    } else {
        "common/blood3"@
    }
}

/// Relies on rand's `Rng::gen_range` over `thread_rng()`: a value in `0..n`.
#[verifier::external_body]
fn random_below(n: usize) -> (r: usize)
    requires
        n > 0,
    ensures
        r < n,
{
    rand::Rng::gen_range(&mut rand::thread_rng(), 0, n)
}

/// A blood decal for `obj`, placed ahead of it, with the sprite that draw
/// `pick` selects.
pub fn new_blood_with(obj: Object, pick: usize) -> (r: Decal)
    requires
        obj.pos.inner(),
        obj.rot.wf(),
        pick < 5,
    ensures
        r.obj == (Object { pos: sum(obj.pos, step_along(obj.rot, BLOOD_OFFSET as int)), ..obj }),
        r.spr@ == blood_sprite(pick as int),
        r.obj.pos.bounded(),
{
    let pos = offset(obj.pos, step_toward(obj.rot, BLOOD_OFFSET));
    let spr = if pick == 0 {
        "common/blood1".to_string()
    } else if pick <= 2 {
        "common/blood2".to_string()
    } else {
        "common/blood3".to_string()
    };
    Decal { obj: Object { pos, rot: obj.rot }, spr }
}

/// A blood decal for `obj` with a randomly chosen sprite.
pub fn new_blood(obj: Object) -> (r: Decal)
    requires
        obj.pos.inner(),
        obj.rot.wf(),
    ensures
        r.obj == (Object { pos: sum(obj.pos, step_along(obj.rot, BLOOD_OFFSET as int)), ..obj }),
        exists|pick: int| 0 <= pick < 5 && r.spr@ == blood_sprite(pick),
{
    let pick = random_below(5);
    new_blood_with(obj, pick)
}

/// `s` with the items at `ds` removed one after the other.
pub open spec fn removed_all<T>(s: Seq<T>, ds: Seq<usize>) -> Seq<T>
    decreases ds.len(),
{
    if ds.len() == 0 {
        s
    } else {
        removed_all(s.remove(ds[0] as int), ds.drop_first())
    }
}

/// Whether `ds` holds indices of `n` items, highest first, none twice.
pub open spec fn descending_below(ds: Seq<usize>, n: int) -> bool {
    &&& forall|k: int| 0 <= k < ds.len() ==> (#[trigger] ds[k]) < n
    &&& forall|k: int, m: int| 0 <= k < m < ds.len() ==> ds[k] > ds[m]
}

/// Removes the items at `ds`, which lists indices highest first, so that no
/// removal shifts an index still to come.
pub fn remove_all<T>(v: &mut Vec<T>, ds: &Vec<usize>)
    requires
        descending_below(ds@, old(v)@.len() as int),
    ensures
        final(v)@ == removed_all(old(v)@, ds@),
        final(v)@.len() == old(v)@.len() - ds@.len(),
{
    let mut k: usize = 0;
    proof {
        assert(ds@.subrange(0, ds@.len() as int) =~= ds@);
    }
    while k < ds.len()
        invariant
            k <= ds@.len(),
            removed_all(old(v)@, ds@) == removed_all(v@, ds@.subrange(k as int, ds@.len() as int)),
            v@.len() == old(v)@.len() - k,
            descending_below(ds@, old(v)@.len() as int),
            forall|m: int| k <= m < ds@.len() ==> (#[trigger] ds@[m]) < v@.len(),
        decreases ds@.len() - k,
    {
        proof {
            let rest = ds@.subrange(k as int, ds@.len() as int);
            assert(rest.drop_first() =~= ds@.subrange(k + 1, ds@.len() as int));
            assert forall|m: int| k + 1 <= m < ds@.len() implies (#[trigger] ds@[m]) < v@.len() - 1 by {
                assert(ds@[k as int] > ds@[m]);
            }
        }
        v.remove(ds[k]);
        k = k + 1;
    }
    proof {
        assert(ds@.subrange(k as int, ds@.len() as int) =~= Seq::<usize>::empty());
    }
}

/// Whether `ds` lists indices of `n` items, highest first, none twice.
pub fn is_descending_below(ds: &Vec<usize>, n: usize) -> (r: bool)
    ensures
        r == descending_below(ds@, n as int),
{
    let mut k: usize = 0;
    while k < ds.len()
        invariant
            k <= ds@.len(),
            forall|j: int| 0 <= j < k ==> (#[trigger] ds@[j]) < n,
            forall|a: int, b: int| 0 <= a < b < k ==> ds@[a] > ds@[b],
        decreases ds@.len() - k,
    {
        if ds[k] >= n {
            return false;
        }
        if k > 0 && ds[k - 1] <= ds[k] {
            return false;
        }
        proof {
            assert forall|a: int, b: int| 0 <= a < b < k + 1 implies ds@[a] > ds@[b] by {
                if b == k && a < k - 1 {
                    assert(ds@[a] > ds@[k - 1]);
                }
            }
        }
        k = k + 1;
    }
    true
}

/// Everything that lives in a level.
#[derive(Clone, Debug)]
pub struct World {
    pub player: Player,
    pub enemies: Vec<Enemy>,
    pub projectiles: Vec<ProjectileInstance>,
    pub explosions: Vec<ExplosionInstance>,
    pub decals: Vec<Decal>,
    pub intels: Vec<Vec2>,
    pub exit: Option<Vec2>,
}

/// Whether `p` lies strictly closer than `r` to `q`.
pub open spec fn closer_than(p: Vec2, q: Vec2, r: int) -> bool {
    norm_sq(diff(p, q)) < r * r
}

/// Whether a body facing `f` is struck from behind from offset `d`, for
/// offsets within melee reach.
fn behind(f: crate::geom::Turn, d: Vec2) -> (r: bool)
    requires
        f.wf(),
        -MELEE_RANGE <= d.x <= MELEE_RANGE,
        -MELEE_RANGE <= d.y <= MELEE_RANGE,
    ensures
        r == from_behind(f, d),
{
    let fx: i128 = f.cos as i128;
    let fy: i128 = f.sin as i128;
    let dx: i128 = d.x as i128;
    let dy: i128 = d.y as i128;
    proof {
        crate::geom::lemma_mul_within(fx as int, dx as int, 65536, 44000);
        crate::geom::lemma_mul_within(fy as int, dy as int, 65536, 44000);
        crate::geom::lemma_mul_within(dx as int, dx as int, 44000, 44000);
        crate::geom::lemma_mul_within(dy as int, dy as int, 44000, 44000);
    }
    let k: i128 = fx * dx + fy * dy;
    let dd: i128 = dx * dx + dy * dy;
    let s: i128 = TURN_SCALE as i128;
    proof {
        crate::geom::lemma_mul_within(k as int, k as int, 5_767_168_000int, 5_767_168_000int);
        crate::geom::lemma_mul_within(s * s, dd as int, 4_294_967_296int, 3_872_000_000int);
        assert(2 * k * k == 2 * (k * k)) by (nonlinear_arith);
    }
    dd > 0 && (k < 0 || 2 * (k * k) < s * s * dd)
}

/// Whether a body can stand in the world.
fn body_fits(p: &Player) -> (r: bool)
    ensures
        r == body_ok(*p),
{
    p.obj.pos.is_inner() && p.obj.rot.is_wf() && p.health.armour >= 0
        && p.health.hp >= crate::health::HP_FLOOR
}

/// The squared distance between two bounded points.
pub fn dist_sq(p: Vec2, q: Vec2) -> (r: i128)
    requires
        p.bounded(),
        q.bounded(),
    ensures
        r == norm_sq(diff(p, q)),
        0 <= r <= 0x8000_0000_0000_0000,
{
    let dx: i128 = p.x as i128 - q.x as i128;
    let dy: i128 = p.y as i128 - q.y as i128;
    proof {
        crate::geom::lemma_mul_within(dx as int, dx as int, 0x8000_0000, 0x8000_0000);
        crate::geom::lemma_mul_within(dy as int, dy as int, 0x8000_0000, 0x8000_0000);
    }
    dx * dx + dy * dy
}

/// The level is won at the exit once all intel is taken, or, in a level
/// without an exit, once no enemy is left.
pub open spec fn won(w: World) -> bool {
    match w.exit {
        Some(p) => w.intels@.len() == 0 && closer_than(p, w.player.obj.pos, EXIT_RADIUS as int),
        None => w.enemies@.len() == 0,
    }
}

/// How a projectile's tick ended, what it did to a body it hit, whether it
/// leaves the world, and where the hole it left in a wall is.
#[derive(Clone, Copy, Debug, PartialEq, Eq, Structural)]
pub struct Strike {
    pub hit: Hit,
    pub outcome: Option<HitOutcome>,
    pub remove: bool,
    pub hole: Option<Object>,
}

/// How far, in thousandths of a pixel, a wall hole lies past the point where
/// the projectile stopped, along each axis it was moving on.
pub const HOLE_NUDGE: i64 = 5_000;

pub open spec fn sign(v: i64) -> int {
    if v > 0 {
        1
    } else if v < 0 {
        -1
    } else {
        0
    }
}

/// Where the hole of a projectile stopped at `obj` goes: nudged a few pixels
/// on along each axis of its direction.
pub open spec fn hole_spot(obj: Object) -> Object {
    Object {
        pos: Vec2 {
            x: (obj.pos.x + HOLE_NUDGE * sign(obj.rot.cos)) as i64,
            y: (obj.pos.y + HOLE_NUDGE * sign(obj.rot.sin)) as i64,
        },
        ..obj
    }
}

fn nudge(v: i64, dir: i64) -> (r: i64)
    requires
        -COORD_LIMIT <= v <= COORD_LIMIT,
    ensures
        r == v + HOLE_NUDGE * sign(dir),
{
    if dir > 0 {
        v + HOLE_NUDGE
    } else if dir < 0 {
        v - HOLE_NUDGE
    } else {
        v
    }
}

/// What a tick of an explosion did: whether its fuse ran out, whether its
/// burst is over, and what became of the bodies it hit.
#[derive(Clone, Debug)]
pub struct Blast {
    pub exploded: bool,
    pub dead: bool,
    pub player: Option<HitOutcome>,
    pub enemies: Vec<HitOutcome>,
}

/// What a cast attempt did: whether a spell was held (and so thrown), and
/// whether anything entered the world.
#[derive(Clone, Copy, Debug, PartialEq, Eq, Structural)]
pub struct CastReport {
    pub held: bool,
    pub spawned: bool,
}

/// What `spawn` makes of `maker` cast from `obj`: whether a definition
/// names the spell's `cast_name`, and the projectiles and explosions after it.
pub open spec fn spawn_views(
    ps: Seq<ProjectileInstance>,
    xs: Seq<ExplosionInstance>,
    reg: Registry,
    maker: ObjMaker,
    obj: Object,
) -> (bool, Seq<ProjectileInstance>, Seq<ExplosionInstance>) {
    match maker {
        ObjMaker::Projectile(pm) => {
            let spell = reg.spells@[pm.0 as int];
            if exists|j: int| first_projectile(reg.projectiles@, spell.cast_name@, j) {
                let j = choose|j: int| first_projectile(reg.projectiles@, spell.cast_name@, j);
                (
                    true,
                    ps + Seq::new(
                        spell.pattern@.len(),
                        |k: int|
                            launched(
                                obj,
                                spell.pattern@[k],
                                (reg.projectiles@[j].speed * axis_factor(
                                    spell.cast_type,
                                    ChargeUpType::Speed,
                                    pm.1 as int,
                                ) / 1000) as u64,
                                axis_factor(spell.cast_type, ChargeUpType::Damage, pm.1 as int) as u64,
                                pm.0,
                                j as usize,
                            ),
                    ),
                    xs,
                )
            } else {
                (false, ps, xs)
            }
        },
        ObjMaker::Explosion(em) => {
            let spell = reg.spells@[em.0 as int];
            if exists|j: int| first_explosion(reg.explosions@, spell.cast_name@, j) {
                let j = choose|j: int| first_explosion(reg.explosions@, spell.cast_name@, j);
                (
                    true,
                    ps,
                    xs + Seq::new(
                        spell.pattern@.len(),
                        |k: int|
                            placed(
                                obj,
                                spell.pattern@[k],
                                spell.spell_range,
                                reg.explosions@[j],
                                axis_factor(spell.cast_type, ChargeUpType::Damage, em.1 as int) as u64,
                                (reg.explosions@[j].range * axis_factor(
                                    spell.cast_type,
                                    ChargeUpType::Range,
                                    em.1 as int,
                                ) / 1000) as u64,
                                em.0,
                                j as usize,
                            ),
                    ),
                )
            } else {
                (false, ps, xs)
            }
        },
    }
}

/// Whether `after` is world `w` after a cast attempt of the held spell with
/// its charge flag set to `charging`, reported as `r`: the spell is cast; if
/// it fires, its energy cost is asked for, and only when paid does what it
/// makes enter the world.
pub open spec fn cast_done(w: World, after: World, reg: Registry, charging: bool, r: CastReport) -> bool {
    match w.player.spell.cur_spell {
        None => after == w && !r.held && !r.spawned,
        Some(s) => {
            let spell = reg.spells@[s.spell as int];
            let (maker, s1) = cast_result(SpellInstance { being_charged: charging, ..s }, spell);
            let paid = maker is Some && spent(w.player.energy, spell.energy_cost as int).0;
            let sv = spawn_views(w.projectiles@, w.explosions@, reg, maker.unwrap(), w.player.obj);
            &&& r.held
            &&& after.player == (Player {
                spell: ElemSlots { cur_spell: Some(s1), ..w.player.spell },
                energy: if maker is Some {
                    spent(w.player.energy, spell.energy_cost as int).1
                } else {
                    w.player.energy
                },
                ..w.player
            })
            &&& r.spawned == (paid && sv.0)
            &&& after.projectiles@ == if paid { sv.1 } else { w.projectiles@ }
            &&& after.explosions@ == if paid { sv.2 } else { w.explosions@ }
            &&& after == (World {
                player: after.player,
                projectiles: after.projectiles,
                explosions: after.explosions,
                ..w
            })
        },
    }
}

/// Distance, in thousandths of a pixel, within which a melee strike lands.
pub const MELEE_RANGE: i64 = 44_000;

/// Damage of a melee strike from behind.
pub const BACKSTAB_DAMAGE: u32 = 165;

/// Damage of any other melee strike.
pub const STAB_DAMAGE: u32 = 33;

/// Penetration of a melee strike, in thousandths.
pub const STAB_PENETRATION: u32 = 920;

/// Whether a body facing `f` is struck from behind by someone at offset `d`
/// from it: the angle between `f` and `d` exceeds 45 degrees. (No offset at
/// all is no strike from behind.)
pub open spec fn from_behind(f: crate::geom::Turn, d: Vec2) -> bool {
    let k = dot(Vec2 { x: f.cos, y: f.sin }, d);
    let s = TURN_SCALE as int;
    norm_sq(d) > 0 && (k < 0 || 2 * k * k < s * s * norm_sq(d))
}

/// Enemy `e` after a melee strike from a player at `at`: struck if within
/// reach, harder from behind.
pub open spec fn stabbed(e: Enemy, at: Vec2) -> Enemy {
    let d = diff(at, e.pl.obj.pos);
    if norm_sq(d) < MELEE_RANGE * MELEE_RANGE {
        Enemy {
            pl: Player {
                health: damaged(
                    e.pl.health,
                    if from_behind(e.pl.obj.rot, d) {
                        BACKSTAB_DAMAGE as int
                    } else {
                        STAB_DAMAGE as int
                    },
                    STAB_PENETRATION as int,
                ),
                ..e.pl
            },
            ..e
        }
    } else {
        e
    }
}

/// Whether a melee strike from `at` reaches enemy `e`.
pub open spec fn in_reach(e: Enemy, at: Vec2) -> bool {
    norm_sq(diff(at, e.pl.obj.pos)) < MELEE_RANGE * MELEE_RANGE
}

/// Whether a melee strike from `at` reaches enemy `e` and kills it.
pub open spec fn kills(e: Enemy, at: Vec2) -> bool {
    in_reach(e, at) && stabbed(e, at).pl.health.dead()
}

/// Whether `k` is the first enemy that a melee strike from `at` kills.
pub open spec fn first_kill(es: Seq<Enemy>, at: Vec2, k: int) -> bool {
    &&& 0 <= k < es.len()
    &&& kills(es[k], at)
    &&& forall|j: int| 0 <= j < k ==> !kills(#[trigger] es[j], at)
}

/// Whether the last enemy within reach among the first `n` was struck from
/// behind (false when none was within reach).
pub open spec fn last_backstab(es: Seq<Enemy>, at: Vec2, n: int) -> bool
    decreases n,
{
    if n <= 0 {
        false
    } else if in_reach(es[n - 1], at) {
        from_behind(es[n - 1].pl.obj.rot, diff(at, es[n - 1].pl.obj.pos))
    } else {
        last_backstab(es, at, n - 1)
    }
}

/// What a melee strike did: whether the last enemy struck was struck from
/// behind, and whether one died (the strike stops at the first that dies).
#[derive(Clone, Copy, Debug, PartialEq, Eq, Structural)]
pub struct MeleeReport {
    pub backstab: bool,
    pub killed: bool,
}

/// What a tick of the victory clock asks for.
#[derive(Clone, Copy, Debug, PartialEq, Eq, Structural)]
pub struct ClockStep {
    /// The level was just won: play the victory sound.
    pub victory_sound: bool,
    /// The victory has been shown long enough: switch to the win screen.
    pub win: bool,
}

/// How long, in microseconds, the victory is shown before the win screen.
pub const VICTORY_DELAY: u64 = 2_000_000;

/// Ticks played so far, and how long the level has been won.
#[derive(Clone, Copy, Debug, PartialEq, Eq, Structural)]
pub struct Progress {
    pub time: u64,
    pub victory_time: u64,
}

impl Progress {
    /// One tick: once the level is won the victory clock starts and runs on;
    /// until then the play time counts ticks.
    pub fn advance(&mut self, game_won: bool) -> (r: ClockStep)
        requires
            old(self).time < u64::MAX,
            old(self).victory_time <= u64::MAX - DELTA,
        ensures
            r.victory_sound == (game_won && old(self).victory_time == 0),
            final(self).victory_time == if game_won || old(self).victory_time > 0 {
                old(self).victory_time + DELTA
            } else {
                0int
            },
            final(self).time == if game_won || old(self).victory_time > 0 {
                old(self).time as int
            } else {
                old(self).time + 1
            },
            r.win == (final(self).victory_time >= VICTORY_DELAY),
    {
        let mut victory_sound = false;
        if game_won && self.victory_time == 0 {
            victory_sound = true;
            self.victory_time = self.victory_time + DELTA;
        } else if self.victory_time > 0 {
            self.victory_time = self.victory_time + DELTA;
        } else {
            self.time = self.time + 1;
        }
        ClockStep { victory_sound, win: self.victory_time >= VICTORY_DELAY }
    }
}

/// `intels` less the markers within pick-up reach of `at`, order kept.
pub open spec fn intels_kept(intels: Seq<Vec2>, at: Vec2) -> Seq<Vec2>
    decreases intels.len(),
{
    if intels.len() == 0 {
        Seq::empty()
    } else {
        let rest = intels_kept(intels.drop_last(), at);
        if norm_sq(diff(intels.last(), at)) <= PICKUP_RADIUS * PICKUP_RADIUS {
            rest
        } else {
            rest.push(intels.last())
        }
    }
}

/// The enemies after the hits at `hits` from `source` are dealt with in
/// turn: a dead one leaves, a living one is alerted towards `source`.
pub open spec fn resolved(s: Seq<Enemy>, hits: Seq<usize>, source: Vec2) -> Seq<Enemy>
    decreases hits.len(),
{
    if hits.len() == 0 {
        s
    } else {
        let i = hits[0] as int;
        let next = if 0 <= i < s.len() {
            if s[i].pl.health.dead() {
                s.remove(i)
            } else {
                s.update(i, alerted(s[i], diff(source, s[i].pl.obj.pos)))
            }
        } else {
            s
        };
        resolved(next, hits.drop_first(), source)
    }
}

/// The enemies right after explosion `x` went off.
pub open spec fn blasted_all(x: ExplosionInstance, def: Explosion, visible: Seq<bool>, s: Seq<Enemy>) -> Seq<Enemy> {
    Seq::new(s.len(), |j: int| Enemy { pl: blasted(x, def, visible[j], s[j].pl), ..s[j] })
}

/// What a hit did to the body it struck.
#[derive(Clone, Copy, Debug, PartialEq, Eq, Structural)]
pub enum HitOutcome {
    PlayerDied,
    PlayerHurt,
    EnemyKilled,
    EnemyHurt,
}

/// The enemy after a hit from direction `dir` that it survived.
pub open spec fn alerted(e: Enemy, dir: Vec2) -> Enemy {
    if e.behaviour is LastKnown {
        e
    } else {
        Enemy { behaviour: Chaser::LookAround { dir }, ..e }
    }
}

/// Placement of a body that the world can hold.
pub open spec fn body_ok(p: Player) -> bool {
    p.obj.pos.inner() && p.obj.rot.wf() && p.health.wf()
}

/// Where a blood decal for `obj` goes.
pub open spec fn blood_spot(obj: Object) -> Object {
    Object { pos: sum(obj.pos, step_along(obj.rot, BLOOD_OFFSET as int)), ..obj }
}

impl World {
    /// Every entity placed within bounds with valid health; every projectile
    /// and explosion well formed.
    pub open spec fn wf(&self) -> bool {
        &&& body_ok(self.player)
        &&& forall|j: int| 0 <= j < self.enemies@.len() ==> body_ok((#[trigger] self.enemies@[j]).pl)
        &&& forall|j: int| 0 <= j < self.projectiles@.len() ==> (#[trigger] self.projectiles@[j]).wf()
        &&& forall|j: int| 0 <= j < self.explosions@.len() ==> (#[trigger] self.explosions@[j]).wf()
        &&& self.placed_ok()
    }

    /// After a hit on the player: blood on the floor, and whether the player
    /// died of it.
    pub fn resolve_player_hit(&mut self) -> (r: HitOutcome)
        requires
            old(self).wf(),
        ensures
            final(self).wf(),
            r == if old(self).player.health.dead() {
                HitOutcome::PlayerDied
            } else {
                HitOutcome::PlayerHurt
            },
            final(self).decals@.len() == old(self).decals@.len() + 1,
            final(self).decals@.last().obj == blood_spot(old(self).player.obj),
            *final(self) == (World { decals: final(self).decals, ..*old(self) }),
    {
        let d = new_blood(self.player.obj);
        self.decals.push(d);
        if self.player.health.is_dead() {
            HitOutcome::PlayerDied
        } else {
            HitOutcome::PlayerHurt
        }
    }

    /// After a hit on enemy `i` that came from `source`: blood at `blood_at`;
    /// a dead enemy leaves the world, a living one that was not chasing turns
    /// to look towards `source`.
    pub fn resolve_enemy_hit(&mut self, i: usize, blood_at: Object, source: Vec2) -> (r: HitOutcome)
        requires
            old(self).wf(),
            i < old(self).enemies@.len(),
            blood_at.pos.inner(),
            blood_at.rot.wf(),
            source.bounded(),
        ensures
            final(self).wf(),
            final(self).decals@.len() == old(self).decals@.len() + 1,
            final(self).decals@.last().obj == blood_spot(blood_at),
            old(self).enemies@[i as int].pl.health.dead() ==> {
                &&& r == HitOutcome::EnemyKilled
                &&& final(self).enemies@ == old(self).enemies@.remove(i as int)
            },
            !old(self).enemies@[i as int].pl.health.dead() ==> {
                &&& r == HitOutcome::EnemyHurt
                &&& final(self).enemies@ == old(self).enemies@.update(
                    i as int,
                    alerted(old(self).enemies@[i as int], diff(source, old(self).enemies@[i as int].pl.obj.pos)),
                )
            },
            *final(self) == (World { decals: final(self).decals, enemies: final(self).enemies, ..*old(self) }),
    {
        let d = new_blood(blood_at);
        self.decals.push(d);
        let mut e = self.enemies[i];
        if e.pl.health.is_dead() {
            self.enemies.remove(i);
            proof {
                assert forall|j: int| 0 <= j < self.enemies@.len() implies body_ok((#[trigger] self.enemies@[j]).pl) by {
                    if j >= i {
                        assert(self.enemies@[j] == old(self).enemies@[j + 1]);
                    } else {
                        assert(self.enemies@[j] == old(self).enemies@[j]);
                    }
                }
            }
            HitOutcome::EnemyKilled
        } else {
            let dir = Vec2 { x: source.x - e.pl.obj.pos.x, y: source.y - e.pl.obj.pos.y };
            e.alert(dir);
            self.enemies[i] = e;
            proof {
                assert forall|j: int| 0 <= j < self.enemies@.len() implies body_ok((#[trigger] self.enemies@[j]).pl) by {
                    if j != i {
                        assert(self.enemies@[j] == old(self).enemies@[j]);
                    }
                }
            }
            HitOutcome::EnemyHurt
        }
    }

    /// One tick of projectile `i`, whose definition is `def`; `cast` is the
    /// ray cast along its `displacement()`. The projectile flies as `flown`
    /// says; a body it hits is then dealt with as `resolve_player_hit` and
    /// `resolve_enemy_hit` say, the blood going where the projectile is. Any
    /// hit ends the projectile; a wall hit leaves a hole just past it.
    pub fn fly_projectile(&mut self, i: usize, def: &Projectile, cast: CastResult) -> (r: Strike)
        requires
            old(self).wf(),
            i < old(self).projectiles@.len(),
            def.wf(),
            cast.point.inner(),
        ensures
            final(self).wf(),
            ({
                let p = old(self).projectiles@[i as int];
                let (h, np, pl, es) = flown(p, *def, cast, old(self).player, old(self).enemies@);
                &&& r.hit == h
                &&& r.remove == !(h is NoHit)
                &&& r.hole == if h is Wall { Some(hole_spot(np.obj)) } else { None::<Object> }
                &&& final(self).projectiles@ == old(self).projectiles@.update(i as int, np)
                &&& (h is Wall || h is NoHit) ==> {
                    &&& r.outcome is None
                    &&& final(self).player == old(self).player
                    &&& final(self).enemies@ == old(self).enemies@
                    &&& final(self).decals@ == old(self).decals@
                }
                &&& h is Player ==> {
                    &&& final(self).player == pl
                    &&& final(self).enemies@ == old(self).enemies@
                    &&& r.outcome == Some(
                        if pl.health.dead() { HitOutcome::PlayerDied } else { HitOutcome::PlayerHurt },
                    )
                    &&& final(self).decals@.len() == old(self).decals@.len() + 1
                    &&& final(self).decals@.last().obj == blood_spot(old(self).player.obj)
                }
                &&& h matches Hit::Enemy(k) ==> {
                    &&& final(self).player == old(self).player
                    &&& final(self).decals@.len() == old(self).decals@.len() + 1
                    &&& final(self).decals@.last().obj == blood_spot(np.obj)
                    &&& if es[k as int].pl.health.dead() {
                        &&& r.outcome == Some(HitOutcome::EnemyKilled)
                        &&& final(self).enemies@ == es.remove(k as int)
                    } else {
                        &&& r.outcome == Some(HitOutcome::EnemyHurt)
                        &&& final(self).enemies@ == es.update(
                            k as int,
                            alerted(es[k as int], diff(np.obj.pos, es[k as int].pl.obj.pos)),
                        )
                    }
                }
                &&& *final(self) == (World {
                    projectiles: final(self).projectiles,
                    player: final(self).player,
                    enemies: final(self).enemies,
                    decals: final(self).decals,
                    ..*old(self)
                })
            }),
    {
        let mut p = self.projectiles[i];
        proof {
            assert(self.projectiles@[i as int].wf());
            assert forall|j: int| 0 <= j < self.enemies@.len() implies
                (#[trigger] self.enemies@[j]).pl.health.wf() && self.enemies@[j].pl.obj.pos.bounded() by {
                assert(body_ok(self.enemies@[j].pl));
            }
        }
        let ghost before = *self;
        let hit = p.update(def, cast, &mut self.player, &mut self.enemies);
        self.projectiles[i] = p;
        proof {
            assert forall|j: int| 0 <= j < self.enemies@.len() implies body_ok((#[trigger] self.enemies@[j]).pl) by {
                assert(body_ok(before.enemies@[j].pl));
            }
            assert forall|j: int| 0 <= j < self.projectiles@.len() implies (#[trigger] self.projectiles@[j]).wf() by {
                if j != i {
                    assert(self.projectiles@[j] == before.projectiles@[j]);
                }
            }
        }
        match hit {
            Hit::Player => {
                let outcome = self.resolve_player_hit();
                Strike { hit, outcome: Some(outcome), remove: true, hole: None }
            },
            Hit::Enemy(e) => {
                let outcome = self.resolve_enemy_hit(e, p.obj, p.obj.pos);
                Strike { hit, outcome: Some(outcome), remove: true, hole: None }
            },
            Hit::Wall => {
                let hole = Object {
                    pos: Vec2 { x: nudge(p.obj.pos.x, p.obj.rot.cos), y: nudge(p.obj.pos.y, p.obj.rot.sin) },
                    rot: p.obj.rot,
                };
                Strike { hit, outcome: None, remove: true, hole: Some(hole) }
            },
            Hit::NoHit => Strike { hit, outcome: None, remove: false, hole: None },
        }
    }

    /// One tick of explosion `i`, whose definition is `def`; the visibility
    /// flags are the ray casts from its centre to the player and to each
    /// enemy. When its fuse runs out, each body it hit is dealt with as
    /// `resolve_player_hit` and `resolve_enemy_hit` say, the enemies highest
    /// index first, the blood going where each body is.
    pub fn blast(
        &mut self,
        i: usize,
        def: &Explosion,
        player_visible: bool,
        enemy_visible: &Vec<bool>,
    ) -> (r: Blast)
        requires
            old(self).wf(),
            i < old(self).explosions@.len(),
            def.wf(),
            enemy_visible@.len() == old(self).enemies@.len(),
        ensures
            final(self).wf(),
            final(self).explosions@.len() == old(self).explosions@.len(),
            final(self).projectiles@ == old(self).projectiles@,
            !r.exploded ==> r.player is None && r.enemies@.len() == 0 && final(self).enemies@
                == old(self).enemies@,
            r.dead ==> !r.exploded,
            r.player is Some ==> r.player == Some(
                if final(self).player.health.dead() {
                    HitOutcome::PlayerDied
                } else {
                    HitOutcome::PlayerHurt
                },
            ),
            ({
                let x = old(self).explosions@[i as int];
                let n = old(self).enemies@.len() as int;
                r.exploded ==> {
                    &&& x.state is Fused && x.fuse <= DELTA
                    &&& r.player is Some == x.hits(player_visible, old(self).player.obj.pos)
                    &&& final(self).player == blasted(x, *def, player_visible, old(self).player)
                    &&& r.enemies@.len() == x.hits_from(enemy_visible@, old(self).enemies@, 0, n).len()
                    &&& final(self).enemies@ == resolved(
                        blasted_all(x, *def, enemy_visible@, old(self).enemies@),
                        x.hits_from(enemy_visible@, old(self).enemies@, 0, n),
                        x.obj.pos,
                    )
                }
            }),
            (old(self).explosions@[i as int].state is Fused && old(self).explosions@[i as int].fuse <= DELTA) ==> r.exploded,
            final(self).explosions@ == old(self).explosions@.update(i as int, aged(old(self).explosions@[i as int])),
            r.dead == burst_over(old(self).explosions@[i as int]),
            !r.exploded ==> final(self).player == old(self).player && final(self).decals@ == old(self).decals@,
            *final(self) == (World {
                explosions: final(self).explosions,
                player: final(self).player,
                enemies: final(self).enemies,
                decals: final(self).decals,
                ..*old(self)
            }),
    {
        let mut x = self.explosions[i];
        proof {
            assert(self.explosions@[i as int].wf());
            assert forall|j: int| 0 <= j < self.enemies@.len() implies
                (#[trigger] self.enemies@[j]).pl.health.wf() && self.enemies@[j].pl.obj.pos.bounded() by {
                assert(body_ok(self.enemies@[j].pl));
            }
        }
        let n = self.enemies.len();
        let ghost before = *self;
        let update = x.update(def, player_visible, enemy_visible, &mut self.player, &mut self.enemies);
        self.explosions[i] = x;
        proof {
            assert forall|j: int| 0 <= j < self.explosions@.len() implies (#[trigger] self.explosions@[j]).wf() by {
                if j != i {
                    assert(self.explosions@[j] == before.explosions@[j]);
                }
            }
        }
        match update {
            ExplosionUpdate::Explosion { player_hit, enemy_hits } => {
                proof {
                    assert(self.player.obj == before.player.obj);
                    assert forall|j: int| 0 <= j < self.enemies@.len() implies body_ok((#[trigger] self.enemies@[j]).pl) by {
                        assert(body_ok(before.enemies@[j].pl));
                        assert(self.enemies@[j].pl.obj == before.enemies@[j].pl.obj);
                    }
                    assert(self.wf());
                    lemma_hits_descending(before.explosions@[i as int], enemy_visible@, before.enemies@, 0, n as int);
                    assert(self.enemies@ =~= blasted_all(before.explosions@[i as int], *def, enemy_visible@, before.enemies@));
                    assert(enemy_hits@.subrange(0, enemy_hits@.len() as int) =~= enemy_hits@);
                }
                let ghost hit_list = enemy_hits@;
                let ghost after_blast = self.enemies@;
                let ghost src = x.obj.pos;
                let player = if player_hit {
                    Some(self.resolve_player_hit())
                } else {
                    None
                };
                let mut outcomes: Vec<HitOutcome> = Vec::new();
                let mut k: usize = 0;
                let ghost mid = *self;
                while k < enemy_hits.len()
                    invariant
                        *self == (World {
                            player: self.player,
                            enemies: self.enemies,
                            decals: self.decals,
                            ..mid
                        }),
                        self.wf(),
                        k <= enemy_hits@.len(),
                        x.wf(),
                        self.projectiles@ == before.projectiles@,
                        self.explosions@.len() == before.explosions@.len(),
                        player is Some ==> player == Some(
                            if self.player.health.dead() {
                                HitOutcome::PlayerDied
                            } else {
                                HitOutcome::PlayerHurt
                            },
                        ),
                        forall|m: int| k <= m < enemy_hits@.len() ==> (#[trigger] enemy_hits@[m]) < self.enemies@.len(),
                        enemy_hits@ == hit_list,
                        src == x.obj.pos,
                        src == before.explosions@[i as int].obj.pos,
                        outcomes@.len() == k,
                        self.player == blasted(before.explosions@[i as int], *def, player_visible, before.player),
                        resolved(after_blast, hit_list, src) == resolved(self.enemies@, hit_list.subrange(k as int, hit_list.len() as int), src),
                        forall|a: int, b: int| 0 <= a < b < enemy_hits@.len() ==> enemy_hits@[a] > enemy_hits@[b],
                    decreases enemy_hits@.len() - k,
                {
                    let idx = enemy_hits[k];
                    let at = self.enemies[idx].pl.obj;
                    proof {
                        assert(body_ok(self.enemies@[idx as int].pl));
                    }
                    let ghost pre = self.enemies@;
                    let outcome = self.resolve_enemy_hit(idx, at, x.obj.pos);
                    outcomes.push(outcome);
                    proof {
                        let rest = hit_list.subrange(k as int, hit_list.len() as int);
                        assert(rest.drop_first() =~= hit_list.subrange(k + 1, hit_list.len() as int));
                        assert(rest[0] == idx);
                        assert forall|m: int| k + 1 <= m < enemy_hits@.len() implies (#[trigger] enemy_hits@[m]) < self.enemies@.len() by {
                            assert(enemy_hits@[k as int] > enemy_hits@[m]);
                        }
                    }
                    k = k + 1;
                }
                Blast { exploded: true, dead: false, player, enemies: outcomes }
            },
            ExplosionUpdate::Dead => {
                Blast { exploded: false, dead: true, player: None, enemies: Vec::new() }
            },
            ExplosionUpdate::Nothing => {
                Blast { exploded: false, dead: false, player: None, enemies: Vec::new() }
            },
        }
    }

    /// Puts into the world what `maker` asks for, fanned out from `obj`: the
    /// projectiles or explosions that the spell's `cast_name` names. Fails,
    /// changing nothing, when no definition has that name.
    pub fn spawn(&mut self, reg: &Registry, maker: ObjMaker, obj: Object) -> (r: bool)
        requires
            old(self).wf(),
            reg.wf(),
            obj.pos.inner(),
            obj.rot.wf(),
            maker matches ObjMaker::Projectile(pm) ==> pm.0 < reg.spells@.len(),
            maker matches ObjMaker::Explosion(em) ==> em.0 < reg.spells@.len(),
        ensures
            final(self).wf(),
            r == spawn_views(old(self).projectiles@, old(self).explosions@, *reg, maker, obj).0,
            final(self).projectiles@ == spawn_views(old(self).projectiles@, old(self).explosions@, *reg, maker, obj).1,
            final(self).explosions@ == spawn_views(old(self).projectiles@, old(self).explosions@, *reg, maker, obj).2,
            *final(self) == (World {
                projectiles: final(self).projectiles,
                explosions: final(self).explosions,
                ..*old(self)
            }),
    {
        match maker {
            ObjMaker::Projectile(pm) => {
                let spell = &reg.spells[pm.0];
                match reg.find_projectile(&spell.cast_name) {
                    Some(j) => {
                        proof {
                            let c = choose|c: int| first_projectile(reg.projectiles@, spell.cast_name@, c);
                            assert(first_projectile(reg.projectiles@, spell.cast_name@, j as int));
                            assert(c == j) by {
                                if c < j { assert(reg.projectiles@[c].id@ != spell.cast_name@); }
                                if c > j { assert(reg.projectiles@[j as int].id@ != spell.cast_name@); }
                            }
                            assert(reg.projectiles@[j as int].wf());
                            assert(spell.wf());
                        }
                        let mut made = pm.make(obj, spell, &reg.projectiles[j], j);
                        let ghost made0 = made@;
                        let ghost old_p = self.projectiles@;
                        self.projectiles.append(&mut made);
                        proof {
                            assert(self.projectiles@ =~= old_p + Seq::new(
                                spell.pattern@.len(),
                                |k: int| launched(
                                    obj,
                                    spell.pattern@[k],
                                    (reg.projectiles@[j as int].speed * axis_factor(spell.cast_type, ChargeUpType::Speed, pm.1 as int) / 1000) as u64,
                                    axis_factor(spell.cast_type, ChargeUpType::Damage, pm.1 as int) as u64,
                                    pm.0,
                                    j,
                                ),
                            ));
                            assert forall|k: int| 0 <= k < self.projectiles@.len() implies (#[trigger] self.projectiles@[k]).wf() by {
                                if k >= old_p.len() {
                                    assert(self.projectiles@[k] == made0[k - old_p.len()]);
                                } else {
                                    assert(self.projectiles@[k] == old_p[k]);
                                }
                            }
                        }
                        true
                    },
                    None => false,
                }
            },
            ObjMaker::Explosion(em) => {
                let spell = &reg.spells[em.0];
                match reg.find_explosion(&spell.cast_name) {
                    Some(j) => {
                        proof {
                            let c = choose|c: int| first_explosion(reg.explosions@, spell.cast_name@, c);
                            assert(first_explosion(reg.explosions@, spell.cast_name@, j as int));
                            assert(c == j) by {
                                if c < j { assert(reg.explosions@[c].id@ != spell.cast_name@); }
                                if c > j { assert(reg.explosions@[j as int].id@ != spell.cast_name@); }
                            }
                            assert(reg.explosions@[j as int].wf());
                            assert(spell.wf());
                        }
                        let mut made = em.make(obj, spell, &reg.explosions[j], j);
                        let ghost made0 = made@;
                        let ghost old_x = self.explosions@;
                        self.explosions.append(&mut made);
                        proof {
                            assert(self.explosions@ =~= old_x + Seq::new(
                                spell.pattern@.len(),
                                |k: int| placed(
                                    obj,
                                    spell.pattern@[k],
                                    spell.spell_range,
                                    reg.explosions@[j as int],
                                    axis_factor(spell.cast_type, ChargeUpType::Damage, em.1 as int) as u64,
                                    (reg.explosions@[j as int].range * axis_factor(spell.cast_type, ChargeUpType::Range, em.1 as int) / 1000) as u64,
                                    em.0,
                                    j,
                                ),
                            ));
                            assert forall|k: int| 0 <= k < self.explosions@.len() implies (#[trigger] self.explosions@[k]).wf() by {
                                if k >= old_x.len() {
                                    assert(self.explosions@[k] == made0[k - old_x.len()]);
                                } else {
                                    assert(self.explosions@[k] == old_x[k]);
                                }
                            }
                        }
                        true
                    },
                    None => false,
                }
            },
        }
    }

    /// Casts the held spell with its charge flag set to `charging`: if its
    /// cast fires and the player can pay its energy cost, what it makes
    /// enters the world; a cast that cannot be paid for is dropped whole.
    fn try_cast(&mut self, reg: &Registry, charging: bool) -> (r: CastReport)
        requires
            old(self).wf(),
            reg.wf(),
            old(self).player.valid_in(reg.spells@),
        ensures
            final(self).wf(),
            final(self).player.valid_in(reg.spells@),
            cast_done(*old(self), *final(self), *reg, charging, r),
    {
        match self.player.spell.cur_spell {
            None => CastReport { held: false, spawned: false },
            Some(inst0) => {
                let mut inst = inst0;
                inst.being_charged = charging;
                let spell = &reg.spells[inst.spell];
                let maker = inst.cast(spell);
                self.player.spell.cur_spell = Some(inst);
                let mut spawned = false;
                if let Some(m) = maker {
                    if self.player.energy.try_to_use_energy(spell.energy_cost) {
                        let obj = self.player.obj;
                        spawned = self.spawn(reg, m, obj);
                    }
                }
                CastReport { held: true, spawned }
            },
        }
    }

    /// Releasing the cast button: the held spell stops charging and is cast.
    pub fn release_cast(&mut self, reg: &Registry) -> (r: CastReport)
        requires
            old(self).wf(),
            reg.wf(),
            old(self).player.valid_in(reg.spells@),
        ensures
            final(self).wf(),
            final(self).player.valid_in(reg.spells@),
            cast_done(*old(self), *final(self), *reg, false, r),
    {
        self.try_cast(reg, false)
    }

    /// Pressing the cast button: the held spell starts charging if the player
    /// can pay its energy cost, which is then spent.
    pub fn begin_charge(&mut self, reg: &Registry) -> (r: bool)
        requires
            old(self).wf(),
            old(self).player.valid_in(reg.spells@),
        ensures
            final(self).wf(),
            final(self).player.valid_in(reg.spells@),
            old(self).player.spell.cur_spell is None ==> *final(self) == *old(self) && !r,
            old(self).player.spell.cur_spell matches Some(s) ==> {
                let cost = reg.spells@[s.spell as int].energy_cost;
                &&& r == spent(old(self).player.energy, cost as int).0
                &&& final(self).player.energy == spent(old(self).player.energy, cost as int).1
                &&& final(self).player.spell.cur_spell == Some(
                    if r { SpellInstance { being_charged: true, ..s } } else { s },
                )
                &&& *final(self) == (World { player: final(self).player, ..*old(self) })
            },
    {
        match self.player.spell.cur_spell {
            None => false,
            Some(inst0) => {
                let mut inst = inst0;
                let cost = reg.spells[inst.spell].energy_cost;
                let ok = self.player.energy.try_to_use_energy(cost);
                if ok {
                    inst.being_charged = true;
                }
                self.player.spell.cur_spell = Some(inst);
                ok
            },
        }
    }

    /// The spell step of a tick: while the cast button is `pressed`, a held
    /// spell that is not a charge-up keeps charging and is cast. (Its charge
    /// and cooldown advance once a tick, in `Player::update`.)
    pub fn charge_tick(&mut self, reg: &Registry, pressed: bool) -> (r: CastReport)
        requires
            old(self).wf(),
            reg.wf(),
            old(self).player.valid_in(reg.spells@),
        ensures
            final(self).wf(),
            final(self).player.valid_in(reg.spells@),
            old(self).player.spell.cur_spell is None ==> *final(self) == *old(self) && !r.held && !r.spawned,
            old(self).player.spell.cur_spell matches Some(s) ==> {
                if pressed && !(reg.spells@[s.spell as int].cast_type is ChargeUp) {
                    cast_done(*old(self), *final(self), *reg, true, r)
                } else {
                    *final(self) == *old(self) && !r.held && !r.spawned
                }
            },
    {
        match self.player.spell.cur_spell {
            None => CastReport { held: false, spawned: false },
            Some(inst) => {
                let spell = &reg.spells[inst.spell];
                let charge_up = match &spell.cast_type {
                    CastType::ChargeUp { .. } => true,
                    _ => false,
                };
                if pressed && !charge_up {
                    self.try_cast(reg, true)
                } else {
                    CastReport { held: false, spawned: false }
                }
            },
        }
    }

    /// The perception step: each enemy that sees the player (`sees`, one flag
    /// per enemy, from the ray casts) chases the player's position and
    /// velocity `vel`.
    pub fn perceive_all(&mut self, sees: &Vec<bool>, vel: Vec2)
        requires
            old(self).wf(),
            sees@.len() == old(self).enemies@.len(),
        ensures
            final(self).wf(),
            final(self).enemies@.len() == old(self).enemies@.len(),
            forall|j: int| 0 <= j < old(self).enemies@.len() ==> (#[trigger] final(self).enemies@[j]) == (Enemy {
                behaviour: if sees@[j] {
                    Chaser::LastKnown { pos: old(self).player.obj.pos, vel }
                } else {
                    old(self).enemies@[j].behaviour
                },
                ..old(self).enemies@[j]
            }),
            *final(self) == (World { enemies: final(self).enemies, ..*old(self) }),
    {
        let n = self.enemies.len();
        let pos = self.player.obj.pos;
        let mut i: usize = 0;
        while i < n
            invariant
                i <= n,
                n == old(self).enemies@.len(),
                sees@.len() == n,
                pos == old(self).player.obj.pos,
                self.enemies@.len() == n,
                *self == (World { enemies: self.enemies, ..*old(self) }),
                forall|j: int| i <= j < n ==> self.enemies@[j] == old(self).enemies@[j],
                forall|j: int| 0 <= j < i ==> (#[trigger] self.enemies@[j]) == (Enemy {
                    behaviour: if sees@[j] {
                        Chaser::LastKnown { pos: old(self).player.obj.pos, vel }
                    } else {
                        old(self).enemies@[j].behaviour
                    },
                    ..old(self).enemies@[j]
                }),
            decreases n - i,
        {
            let mut e = self.enemies[i];
            e.perceive(sees[i], pos, vel);
            self.enemies[i] = e;
            i = i + 1;
        }
        proof {
            assert forall|j: int| 0 <= j < self.enemies@.len() implies body_ok((#[trigger] self.enemies@[j]).pl) by {
                assert(body_ok(old(self).enemies@[j].pl));
            }
        }
    }

    /// Picks up every intel marker within reach of the player and returns how
    /// many were taken.
    pub fn pick_up_intels(&mut self) -> (r: usize)
        requires
            old(self).wf(),
        ensures
            final(self).wf(),
            final(self).intels@ == intels_kept(old(self).intels@, old(self).player.obj.pos),
            r == old(self).intels@.len() - final(self).intels@.len(),
            *final(self) == (World { intels: final(self).intels, ..*old(self) }),
    {
        let at = self.player.obj.pos;
        let mut kept: Vec<Vec2> = Vec::new();
        let mut i: usize = 0;
        while i < self.intels.len()
            invariant
                i <= self.intels@.len(),
                *self == *old(self),
                at == self.player.obj.pos,
                self.wf(),
                kept@ == intels_kept(self.intels@.take(i as int), at),
                kept@.len() <= i,
                forall|j: int| 0 <= j < kept@.len() ==> (#[trigger] kept@[j]).bounded(),
            decreases self.intels@.len() - i,
        {
            let p = self.intels[i];
            proof {
                assert(self.intels@.take(i + 1).drop_last() =~= self.intels@.take(i as int));
                assert(self.intels@.take(i + 1).last() == p);
                assert(p.bounded());
            }
            if dist_sq(p, at) > PICKUP_RADIUS as i128 * PICKUP_RADIUS as i128 {
                kept.push(p);
            }
            i = i + 1;
        }
        proof {
            assert(self.intels@.take(i as int) =~= self.intels@);
        }
        let taken = self.intels.len() - kept.len();
        self.intels = kept;
        taken
    }

    /// A melee strike: each enemy within reach, in order, is struck (harder
    /// from behind) and bleeds, until one dies; that one leaves the world.
    pub fn melee(&mut self) -> (r: MeleeReport)
        requires
            old(self).wf(),
        ensures
            final(self).wf(),
            ({
                let es = old(self).enemies@;
                let at = old(self).player.obj.pos;
                &&& r.killed == exists|k: int| first_kill(es, at, k)
                &&& r.killed ==> {
                    let k = choose|k: int| first_kill(es, at, k);
                    &&& final(self).enemies@.len() == es.len() - 1
                    &&& forall|j: int| 0 <= j < k ==> final(self).enemies@[j] == stabbed(#[trigger] es[j], at)
                    &&& forall|j: int| k <= j < es.len() - 1 ==> final(self).enemies@[j] == #[trigger] es[j + 1]
                    &&& r.backstab == last_backstab(es, at, k + 1)
                }
                &&& !r.killed ==> {
                    &&& final(self).enemies@.len() == es.len()
                    &&& forall|j: int| 0 <= j < es.len() ==> final(self).enemies@[j] == stabbed(#[trigger] es[j], at)
                    &&& r.backstab == last_backstab(es, at, es.len() as int)
                }
            }),
            *final(self) == (World { enemies: final(self).enemies, decals: final(self).decals, ..*old(self) }),
    {
        let n = self.enemies.len();
        let at = self.player.obj.pos;
        let mut backstab = false;
        let mut dead: Option<usize> = None;
        let mut i: usize = 0;
        let reach: i128 = MELEE_RANGE as i128 * MELEE_RANGE as i128;
        while i < n
            invariant_except_break
                dead is None,
                forall|j: int| i <= j < n ==> self.enemies@[j] == old(self).enemies@[j],
                forall|j: int| 0 <= j < i ==> self.enemies@[j] == stabbed(#[trigger] old(self).enemies@[j], old(self).player.obj.pos),
                forall|j: int| 0 <= j < i ==> !kills(#[trigger] old(self).enemies@[j], old(self).player.obj.pos),
                backstab == last_backstab(old(self).enemies@, at, i as int),
            invariant
                i <= n,
                n == old(self).enemies@.len(),
                self.enemies@.len() == n,
                at == old(self).player.obj.pos,
                reach == MELEE_RANGE * MELEE_RANGE,
                self.wf(),
                *self == (World { enemies: self.enemies, decals: self.decals, ..*old(self) }),
            ensures
                dead is Some || i == n,
                dead is None ==> forall|j: int| 0 <= j < n ==> self.enemies@[j] == stabbed(#[trigger] old(self).enemies@[j], old(self).player.obj.pos),
                dead is None ==> forall|j: int| 0 <= j < n ==> !kills(#[trigger] old(self).enemies@[j], old(self).player.obj.pos),
                dead is None ==> backstab == last_backstab(old(self).enemies@, at, n as int),
                dead matches Some(k) ==> {
                    &&& k == i
                    &&& k < self.enemies@.len()
                    &&& first_kill(old(self).enemies@, at, k as int)
                    &&& backstab == last_backstab(old(self).enemies@, at, k + 1)
                    &&& forall|j: int| 0 <= j <= k ==> self.enemies@[j] == stabbed(#[trigger] old(self).enemies@[j], at)
                    &&& forall|j: int| k < j < n ==> self.enemies@[j] == old(self).enemies@[j]
                },
            decreases n - i,
        {
            let mut e = self.enemies[i];
            proof {
                assert(body_ok(self.enemies@[i as int].pl));
            }
            let dsq = dist_sq(at, e.pl.obj.pos);
            if dsq < reach {
                proof {
                    let dx = at.x - e.pl.obj.pos.x;
                    let dy = at.y - e.pl.obj.pos.y;
                    assert(-44000 <= dx <= 44000 && -44000 <= dy <= 44000) by (nonlinear_arith)
                        requires dx * dx + dy * dy < 44000 * 44000;
                }
                let d = Vec2 { x: at.x - e.pl.obj.pos.x, y: at.y - e.pl.obj.pos.y };
                backstab = behind(e.pl.obj.rot, d);
                let blood = new_blood(e.pl.obj);
                self.decals.push(blood);
                e.pl.health.weapon_damage(
                    if backstab {
                        BACKSTAB_DAMAGE
                    } else {
                        STAB_DAMAGE
                    },
                    STAB_PENETRATION,
                );
                self.enemies[i] = e;
                proof {
                    assert forall|j: int| 0 <= j < self.enemies@.len() implies body_ok((#[trigger] self.enemies@[j]).pl) by {
                        if j != i {
                            assert(body_ok(self.enemies@[j].pl));
                        }
                    }
                }
                if e.pl.health.is_dead() {
                    dead = Some(i);
                    break;
                }
            }
            i = i + 1;
        }
        proof {
            let es = old(self).enemies@;
            match dead {
                Some(k) => {
                    let c = choose|c: int| first_kill(es, at, c);
                    assert(c == k) by {
                        if c < k {
                            assert(!kills(es[c], at));
                        }
                        if c > k {
                            assert(!kills(es[k as int], at));
                        }
                    }
                },
                None => {
                    assert forall|c: int| !first_kill(es, at, c) by {
                        if 0 <= c < es.len() {
                            assert(!kills(es[c], at));
                        }
                    }
                },
            }
        }
        match dead {
            Some(k) => {
                self.enemies.remove(k);
                proof {
                    assert forall|j: int| 0 <= j < self.enemies@.len() implies body_ok((#[trigger] self.enemies@[j]).pl) by {
                        if j >= k {
                            assert(self.enemies@[j] == old(self).enemies@[j + 1] || true);
                        }
                    }
                    assert forall|j: int| k <= j < old(self).enemies@.len() - 1 implies self.enemies@[j] == #[trigger] old(self).enemies@[j + 1] by {
                        assert(self.enemies@[j] == self.enemies@[j]);
                    }
                }
                MeleeReport { backstab, killed: true }
            },
            None => MeleeReport { backstab, killed: false },
        }
    }

    /// A level at its start: the player at `start` (500 pixels down and
    /// across when the level gives none), carrying over `carried` health,
    /// energy and spell slots when given.
    pub fn start(
        start: Option<Vec2>,
        carried: Option<(crate::health::Health, crate::energy::Energy, crate::player::ElemSlots)>,
        enemies: Vec<Enemy>,
        intels: Vec<Vec2>,
        decals: Vec<Decal>,
        exit: Option<Vec2>,
    ) -> (r: World)
        ensures
            r.player.obj.pos == match start {
                Some(p) => p,
                None => Vec2 { x: 500_000, y: 500_000 },
            },
            carried matches Some(c) ==> r.player.health == c.0 && r.player.energy == c.1
                && r.player.spell == c.2,
            carried is None ==> r.player.health == crate::health::Health::new_spec()
                && r.player.energy == crate::energy::Energy::default_spec()
                && r.player.spell.all_empty() && r.player.spell.active == crate::player::ActiveSlot::Slot
                && r.player.spell.cur_spell is None,
            r.enemies == enemies,
            r.intels == intels,
            r.decals == decals,
            r.exit == exit,
            r.projectiles@.len() == 0,
            r.explosions@.len() == 0,
    {
        let at = match start {
            Some(p) => p,
            None => Vec2 { x: 500_000, y: 500_000 },
        };
        let mut player = Player::from_point(at);
        if let Some((h, e, es)) = carried {
            player = player.with_health(h).with_energy(e).with_spell(es);
        }
        World {
            player,
            enemies,
            projectiles: Vec::new(),
            explosions: Vec::new(),
            decals,
            intels,
            exit,
        }
    }

    /// Removes the projectiles at `deads`, which must list indices highest
    /// first; returns false, changing nothing, when it does not.
    pub fn remove_projectiles(&mut self, deads: &Vec<usize>) -> (r: bool)
        ensures
            r == descending_below(deads@, old(self).projectiles@.len() as int),
            r ==> final(self).projectiles@ == removed_all(old(self).projectiles@, deads@),
            !r ==> final(self).projectiles@ == old(self).projectiles@,
            *final(self) == (World { projectiles: final(self).projectiles, ..*old(self) }),
    {
        if is_descending_below(deads, self.projectiles.len()) {
            remove_all(&mut self.projectiles, deads);
            true
        } else {
            false
        }
    }

    /// Removes the explosions at `deads`, which must list indices highest
    /// first; returns false, changing nothing, when it does not.
    pub fn remove_explosions(&mut self, deads: &Vec<usize>) -> (r: bool)
        ensures
            r == descending_below(deads@, old(self).explosions@.len() as int),
            r ==> final(self).explosions@ == removed_all(old(self).explosions@, deads@),
            !r ==> final(self).explosions@ == old(self).explosions@,
            *final(self) == (World { explosions: final(self).explosions, ..*old(self) }),
    {
        if is_descending_below(deads, self.explosions.len()) {
            remove_all(&mut self.explosions, deads);
            true
        } else {
            false
        }
    }

    /// Whether the world is well formed and the player's held spell lies in
    /// `book`: what the tick steps ask of their caller.
    pub fn is_valid_in(&self, book: &Vec<crate::spell::Spell>) -> (r: bool)
        ensures
            r == (self.wf() && self.player.valid_in(book@)),
    {
        if !body_fits(&self.player) || !self.player.energy_ok() || !self.player.spell.is_wf() {
            return false;
        }
        if let Some(s) = self.player.spell.cur_spell {
            if s.spell >= book.len() {
                return false;
            }
        }
        let mut j: usize = 0;
        while j < self.enemies.len()
            invariant
                j <= self.enemies@.len(),
                forall|m: int| 0 <= m < j ==> body_ok((#[trigger] self.enemies@[m]).pl),
            decreases self.enemies@.len() - j,
        {
            if !body_fits(&self.enemies[j].pl) {
                return false;
            }
            j = j + 1;
        }
        let mut j: usize = 0;
        while j < self.projectiles.len()
            invariant
                j <= self.projectiles@.len(),
                forall|m: int| 0 <= m < j ==> (#[trigger] self.projectiles@[m]).wf(),
            decreases self.projectiles@.len() - j,
        {
            if !self.projectiles[j].is_wf() {
                return false;
            }
            j = j + 1;
        }
        let mut j: usize = 0;
        while j < self.explosions.len()
            invariant
                j <= self.explosions@.len(),
                forall|m: int| 0 <= m < j ==> (#[trigger] self.explosions@[m]).wf(),
            decreases self.explosions@.len() - j,
        {
            if !self.explosions[j].is_wf() {
                return false;
            }
            j = j + 1;
        }
        let mut j: usize = 0;
        while j < self.intels.len()
            invariant
                j <= self.intels@.len(),
                forall|m: int| 0 <= m < j ==> (#[trigger] self.intels@[m]).bounded(),
            decreases self.intels@.len() - j,
        {
            if !self.intels[j].is_bounded() {
                return false;
            }
            j = j + 1;
        }
        match self.exit {
            Some(p) => p.is_bounded(),
            None => true,
        }
    }

    /// Positions of the player, the enemies, the intel and the exit bounded.
    pub open spec fn placed_ok(&self) -> bool {
        &&& self.player.obj.pos.bounded()
        &&& forall|j: int| 0 <= j < self.intels@.len() ==> (#[trigger] self.intels@[j]).bounded()
        &&& self.exit is Some ==> self.exit.unwrap().bounded()
    }

    /// Whether the level is won.
    pub fn game_won(&self) -> (r: bool)
        requires
            self.placed_ok(),
        ensures
            r == won(*self),
    {
        match self.exit {
            Some(p) => {
                if self.intels.len() != 0 {
                    false
                } else {
                    let r: i128 = EXIT_RADIUS as i128;
                    assert(r * r == 1_024_000_000) by (nonlinear_arith)
                        requires r == 32_000;
                    dist_sq(p, self.player.obj.pos) < r * r
                }
            },
            None => self.enemies.len() == 0,
        }
    }
}

} // verus!
