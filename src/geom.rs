use vstd::prelude::*;

verus! {

/// Fixed-point scale of a `Turn`: a component of `TURN_SCALE` stands for 1.
pub const TURN_SCALE: i64 = 65_536;

/// Largest coordinate magnitude, in thousandths of a pixel, that a position
/// in the world may have.
pub const COORD_LIMIT: i64 = 1_073_741_824;

/// Largest length, in thousandths of a pixel, that a range or a step may have.
pub const REACH_LIMIT: i64 = 16_777_216;

/// A point or a displacement, in thousandths of a pixel.
#[derive(Clone, Copy, Debug, PartialEq, Eq, Structural)]
pub struct Vec2 {
    pub x: i64,
    pub y: i64,
}

/// A direction, held as the cosine and sine of its angle in units of
/// `1 / TURN_SCALE`.
#[derive(Clone, Copy, Debug, PartialEq, Eq, Structural)]
pub struct Turn {
    pub cos: i64,
    pub sin: i64,
}

/// Something placed in the world: where it is and which way it faces.
#[derive(Clone, Copy, Debug, PartialEq, Eq, Structural)]
pub struct Object {
    pub pos: Vec2,
    pub rot: Turn,
}

pub open spec fn dot(a: Vec2, b: Vec2) -> int {
    a.x * b.x + a.y * b.y
}

/// The z component of the cross product of `a` and `b`.
pub open spec fn cross(a: Vec2, b: Vec2) -> int {
    a.x * b.y - a.y * b.x
}

pub open spec fn norm_sq(a: Vec2) -> int {
    dot(a, a)
}

pub open spec fn diff(a: Vec2, b: Vec2) -> Vec2 {
    Vec2 { x: (a.x - b.x) as i64, y: (a.y - b.y) as i64 }
}

pub open spec fn sum(a: Vec2, b: Vec2) -> Vec2 {
    Vec2 { x: (a.x + b.x) as i64, y: (a.y + b.y) as i64 }
}

/// `v * k / TURN_SCALE`, rounded towards zero.
pub open spec fn scaled(v: int, k: int) -> int {
    if v >= 0 {
        v * k / (TURN_SCALE as int)
    } else {
        -((-v) * k / (TURN_SCALE as int))
    }
}

/// A step of length `len` in direction `t`.
pub open spec fn step_along(t: Turn, len: int) -> Vec2 {
    Vec2 { x: scaled(t.cos as int, len) as i64, y: scaled(t.sin as int, len) as i64 }
}

pub open spec fn clamp_unit(v: int) -> int {
    if v > TURN_SCALE {
        TURN_SCALE as int
    } else if v < -TURN_SCALE {
        -TURN_SCALE as int
    } else {
        v
    }
}

/// Direction `t` turned further by `by`, each component kept within one unit.
pub open spec fn turned(t: Turn, by: Turn) -> Turn {
    Turn {
        cos: clamp_unit(scaled(t.cos * by.cos - t.sin * by.sin, 1)) as i64,
        sin: clamp_unit(scaled(t.sin * by.cos + t.cos * by.sin, 1)) as i64,
    }
}

/// Whether the segment from `start` along `d` passes within distance `r` of
/// `c`: the squared distance from `c` to the closest point of the segment is
/// at most `r * r`.
pub open spec fn segment_near(start: Vec2, d: Vec2, c: Vec2, r: int) -> bool {
    let w = diff(c, start);
    let dd = norm_sq(d);
    let t = dot(w, d);
    if dd == 0 || t <= 0 {
        norm_sq(w) <= r * r
    } else if t >= dd {
        norm_sq(diff(w, d)) <= r * r
    } else {
        cross(d, w) * cross(d, w) <= r * r * dd
    }
}

/// Whether `d` lies within the angle whose cosine is `cos_half / TURN_SCALE`
/// of the direction `f`: `cos(angle(f, d)) >= cos_half / TURN_SCALE`, written
/// without square roots. The zero vector lies in every such cone.
pub open spec fn in_cone(f: Turn, d: Vec2, cos_half: int) -> bool {
    let fv = Vec2 { x: f.cos, y: f.sin };
    let k = dot(fv, d);
    let s = TURN_SCALE as int;
    let rhs = cos_half * cos_half * norm_sq(fv) * norm_sq(d);
    if cos_half >= 0 {
        k >= 0 && s * s * k * k >= rhs
    } else {
        k >= 0 || s * s * k * k <= rhs
    }
}

impl Vec2 {
    /// Both coordinates lie within `COORD_LIMIT`.
    pub open spec fn bounded(&self) -> bool {
        -COORD_LIMIT <= self.x <= COORD_LIMIT && -COORD_LIMIT <= self.y <= COORD_LIMIT
    }

    /// Both coordinates lie far enough inside `COORD_LIMIT` that a step of
    /// at most `REACH_LIMIT` stays bounded.
    pub open spec fn inner(&self) -> bool {
        -(COORD_LIMIT - REACH_LIMIT) <= self.x <= COORD_LIMIT - REACH_LIMIT
            && -(COORD_LIMIT - REACH_LIMIT) <= self.y <= COORD_LIMIT - REACH_LIMIT
    }

    /// Both coordinates lie within `REACH_LIMIT`.
    pub open spec fn short(&self) -> bool {
        -REACH_LIMIT <= self.x <= REACH_LIMIT && -REACH_LIMIT <= self.y <= REACH_LIMIT
    }

    pub fn is_bounded(&self) -> (r: bool)
        ensures
            r == self.bounded(),
    {
        -COORD_LIMIT <= self.x && self.x <= COORD_LIMIT && -COORD_LIMIT <= self.y && self.y <= COORD_LIMIT
    }

    pub fn is_inner(&self) -> (r: bool)
        ensures
            r == self.inner(),
    {
        let m = COORD_LIMIT - REACH_LIMIT;
        -m <= self.x && self.x <= m && -m <= self.y && self.y <= m
    }

    pub fn new(x: i64, y: i64) -> (r: Vec2)
        ensures
            r.x == x && r.y == y,
    {
        Vec2 { x, y }
    }
}

/// `p` moved by `d`.
pub fn offset(p: Vec2, d: Vec2) -> (r: Vec2)
    requires
        p.inner(),
        d.short(),
    ensures
        r == sum(p, d),
        r.bounded(),
{
    Vec2 { x: p.x + d.x, y: p.y + d.y }
}

impl Turn {
    /// Both components lie within one unit.
    pub open spec fn wf(&self) -> bool {
        -TURN_SCALE <= self.cos <= TURN_SCALE && -TURN_SCALE <= self.sin <= TURN_SCALE
    }

    pub fn is_wf(&self) -> (r: bool)
        ensures
            r == self.wf(),
    {
        -TURN_SCALE <= self.cos && self.cos <= TURN_SCALE && -TURN_SCALE <= self.sin && self.sin <= TURN_SCALE
    }

    /// Direction `t` turned further by `by`.
    pub fn turn_by(self, by: Turn) -> (r: Turn)
        requires
            self.wf(),
            by.wf(),
        ensures
            r == turned(self, by),
            r.wf(),
    {
        proof {
            lemma_mul_bound(self.cos as int, by.cos as int);
            lemma_mul_bound(self.sin as int, by.sin as int);
            lemma_mul_bound(self.sin as int, by.cos as int);
            lemma_mul_bound(self.cos as int, by.sin as int);
        }
        let c = div_scale(self.cos as i128 * by.cos as i128 - self.sin as i128 * by.sin as i128, 1);
        let s = div_scale(self.sin as i128 * by.cos as i128 + self.cos as i128 * by.sin as i128, 1);
        Turn { cos: clamp_i128(c), sin: clamp_i128(s) }
    }
}

/// Bounds a product by the bounds of its factors.
pub proof fn lemma_mul_within(a: int, b: int, ba: int, bb: int)
    requires
        -ba <= a <= ba,
        -bb <= b <= bb,
    ensures
        -(ba * bb) <= a * b <= ba * bb,
        0 <= a * a <= ba * ba,
{
    assert(-(ba * bb) <= a * b <= ba * bb) by (nonlinear_arith)
        requires -ba <= a <= ba, -bb <= b <= bb;
    assert(0 <= a * a <= ba * ba) by (nonlinear_arith)
        requires -ba <= a <= ba;
}

impl Object {
    /// An object at `pos` facing along the x axis.
    pub fn new(pos: Vec2) -> (r: Object)
        ensures
            r.pos == pos,
            r.rot == (Turn { cos: TURN_SCALE, sin: 0 }),
    {
        Object { pos, rot: Turn { cos: TURN_SCALE, sin: 0 } }
    }
}

/// A step of length `len` in direction `t`.
pub fn step_toward(t: Turn, len: u64) -> (r: Vec2)
    requires
        t.wf(),
        len <= REACH_LIMIT,
    ensures
        r == step_along(t, len as int),
        r.short(),
{
    proof {
        lemma_mul_within(t.cos as int, len as int, TURN_SCALE as int, REACH_LIMIT as int);
        lemma_mul_within(t.sin as int, len as int, TURN_SCALE as int, REACH_LIMIT as int);
        lemma_scaled_short(t.cos as int, len as int);
        lemma_scaled_short(t.sin as int, len as int);
    }
    let x = div_scale(t.cos as i128, len as i128);
    let y = div_scale(t.sin as i128, len as i128);
    Vec2 { x: x as i64, y: y as i64 }
}

proof fn lemma_scaled_short(v: int, len: int)
    requires
        -TURN_SCALE <= v <= TURN_SCALE,
        0 <= len <= REACH_LIMIT,
    ensures
        -REACH_LIMIT <= scaled(v, len) <= REACH_LIMIT,
{
    if v >= 0 {
        assert(v * len / 65536 <= len) by (nonlinear_arith)
            requires 0 <= v <= 65536, 0 <= len;
        assert(v * len / 65536 >= 0) by (nonlinear_arith)
            requires 0 <= v, 0 <= len;
    } else {
        assert((-v) * len / 65536 <= len) by (nonlinear_arith)
            requires 0 <= -v <= 65536, 0 <= len;
        assert((-v) * len / 65536 >= 0) by (nonlinear_arith)
            requires 0 <= -v, 0 <= len;
    }
}

/// Whether the segment from `start` along `d` passes within `r` of `c`.
pub fn near_segment(start: Vec2, d: Vec2, c: Vec2, r: i64) -> (b: bool)
    requires
        start.bounded(),
        c.bounded(),
        d.short(),
        0 <= r <= REACH_LIMIT,
    ensures
        b == segment_near(start, d, c, r as int),
{
    let wx: i128 = c.x as i128 - start.x as i128;
    let wy: i128 = c.y as i128 - start.y as i128;
    let dx: i128 = d.x as i128;
    let dy: i128 = d.y as i128;
    let rr: i128 = r as i128;
    let w2 = 2 * COORD_LIMIT as i128;
    proof {
        lemma_mul_within(wx as int, dx as int, w2 as int, REACH_LIMIT as int);
        lemma_mul_within(wy as int, dy as int, w2 as int, REACH_LIMIT as int);
        lemma_mul_within(dx as int, dx as int, REACH_LIMIT as int, REACH_LIMIT as int);
        lemma_mul_within(dy as int, dy as int, REACH_LIMIT as int, REACH_LIMIT as int);
        lemma_mul_within(wx as int, wx as int, w2 as int, w2 as int);
        lemma_mul_within(wy as int, wy as int, w2 as int, w2 as int);
        lemma_mul_within(dx as int, wy as int, REACH_LIMIT as int, w2 as int);
        lemma_mul_within(dy as int, wx as int, REACH_LIMIT as int, w2 as int);
        lemma_mul_within(rr as int, rr as int, REACH_LIMIT as int, REACH_LIMIT as int);
    }
    let dd: i128 = dx * dx + dy * dy;
    let t: i128 = wx * dx + wy * dy;
    let r2: i128 = rr * rr;
    if dd == 0 || t <= 0 {
        wx * wx + wy * wy <= r2
    } else if t >= dd {
        let ex: i128 = wx - dx;
        let ey: i128 = wy - dy;
        proof {
            lemma_mul_within(ex as int, ex as int, 2 * w2 as int, 2 * w2 as int);
            lemma_mul_within(ey as int, ey as int, 2 * w2 as int, 2 * w2 as int);
        }
        ex * ex + ey * ey <= r2
    } else {
        let cr: i128 = dx * wy - dy * wx;
        proof {
            let bound: int = 0x100_0000_0000_0000;
            assert(-bound <= cr <= bound);
            lemma_mul_within(cr as int, cr as int, bound, bound);
            assert(bound * bound == 0x1_0000_0000_0000_0000_0000_0000_0000);
            lemma_mul_within(r2 as int, dd as int, (REACH_LIMIT as int) * (REACH_LIMIT as int),
                2 * (REACH_LIMIT as int) * (REACH_LIMIT as int));
        }
        let c2: i128 = cr * cr;
        let rd: i128 = r2 * dd;
        c2 <= rd
    }
}

/// Whether `d` lies within the cone of half-angle cosine `cos_half` around `f`.
pub fn within_cone(f: Turn, d: Vec2, cos_half: i64) -> (b: bool)
    requires
        f.wf(),
        d.short(),
        -TURN_SCALE <= cos_half <= TURN_SCALE,
    ensures
        b == in_cone(f, d, cos_half as int),
{
    let fx: i128 = f.cos as i128;
    let fy: i128 = f.sin as i128;
    let dx: i128 = d.x as i128;
    let dy: i128 = d.y as i128;
    let c: i128 = cos_half as i128;
    let s: i128 = TURN_SCALE as i128;
    proof {
        lemma_mul_within(fx as int, dx as int, TURN_SCALE as int, REACH_LIMIT as int);
        lemma_mul_within(fy as int, dy as int, TURN_SCALE as int, REACH_LIMIT as int);
        lemma_mul_within(fx as int, fx as int, TURN_SCALE as int, TURN_SCALE as int);
        lemma_mul_within(fy as int, fy as int, TURN_SCALE as int, TURN_SCALE as int);
        lemma_mul_within(dx as int, dx as int, REACH_LIMIT as int, REACH_LIMIT as int);
        lemma_mul_within(dy as int, dy as int, REACH_LIMIT as int, REACH_LIMIT as int);
        lemma_mul_within(c as int, c as int, TURN_SCALE as int, TURN_SCALE as int);
    }
    let k: i128 = fx * dx + fy * dy;
    let ff: i128 = fx * fx + fy * fy;
    let dd: i128 = dx * dx + dy * dy;
    let ghost kb: int = 2 * (TURN_SCALE as int) * (REACH_LIMIT as int);
    let ghost sb: int = (TURN_SCALE as int) * (TURN_SCALE as int);
    let ghost rb: int = 2 * (REACH_LIMIT as int) * (REACH_LIMIT as int);
    proof {
        lemma_mul_within(k as int, k as int, kb, kb);
        lemma_mul_within(s * s, k * k, sb, kb * kb);
        lemma_mul_within(c * c, ff as int, sb, 2 * sb);
        lemma_mul_within(c * c * ff, dd as int, 2 * sb * sb, rb);
    }
    let lhs: i128 = s * s * (k * k);
    let rhs: i128 = c * c * ff * dd;
    proof {
        assert(s * s * (k * k) == s * s * k * k) by (nonlinear_arith);
    }
    if cos_half >= 0 {
        k >= 0 && lhs >= rhs
    } else {
        k >= 0 || lhs <= rhs
    }
}

proof fn lemma_mul_bound(a: int, b: int)
    requires
        -TURN_SCALE <= a <= TURN_SCALE,
        -TURN_SCALE <= b <= TURN_SCALE,
    ensures
        -TURN_SCALE * TURN_SCALE <= a * b <= TURN_SCALE * TURN_SCALE,
{
    assert(-TURN_SCALE * TURN_SCALE <= a * b <= TURN_SCALE * TURN_SCALE) by (nonlinear_arith)
        requires
            -65536 <= a <= 65536,
            -65536 <= b <= 65536,
    ;
}

fn clamp_i128(v: i128) -> (r: i64)
    ensures
        r == clamp_unit(v as int),
{
    if v > TURN_SCALE as i128 {
        TURN_SCALE
    } else if v < -(TURN_SCALE as i128) {
        -TURN_SCALE
    } else {
        v as i64
    }
}

/// `v * k / TURN_SCALE` rounded towards zero, for `|v| * k` within `i128`.
pub fn div_scale(v: i128, k: i128) -> (r: i128)
    requires
        0 <= k,
        -0x100_0000_0000_0000_0000 <= v <= 0x100_0000_0000_0000_0000,
        k <= 0x1_0000_0000_0000,
    ensures
        r == scaled(v as int, k as int),
        v >= 0 ==> 0 <= r <= v * k / (TURN_SCALE as int),
        v < 0 ==> -((-v) * k / (TURN_SCALE as int)) == r,
{
    if v >= 0 {
        proof {
            assert(0 <= v * k <= 0x100_0000_0000_0000_0000 * 0x1_0000_0000_0000)
                by (nonlinear_arith)
                requires 0 <= v <= 0x100_0000_0000_0000_0000, 0 <= k <= 0x1_0000_0000_0000;
        }
        v * k / (TURN_SCALE as i128)
    } else {
        let m: i128 = -v;
        proof {
            assert(0 <= m * k <= 0x100_0000_0000_0000_0000 * 0x1_0000_0000_0000)
                by (nonlinear_arith)
                requires 0 <= m <= 0x100_0000_0000_0000_0000, 0 <= k <= 0x1_0000_0000_0000;
        }
        -(m * k / (TURN_SCALE as i128))
    }
}

} // verus!
