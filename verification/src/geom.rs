//! Plane geometry over the fixed-point scalar: vectors, axis-aligned
//! rectangles, the affine transform, and a rational approximation of the
//! circle functions.

use vstd::prelude::*;
use crate::fx::{isqrt, is_isqrt, isqrt_spec, lemma_mul_bound, Fx, FX_ONE, sat64, tdiv};
use vstd::arithmetic::div_mod::{
    lemma_div_is_ordered,
    lemma_div_multiples_vanish,
    lemma_add_mod_noop,
    lemma_small_mod,
    lemma_mod_division_less_than_divisor,
};

verus! {

/// A point or direction in the plane.
#[derive(Clone, Copy, Debug, PartialEq, Eq, Structural)]
pub struct FxVec {
    pub x: Fx,
    pub y: Fx,
}

/// Saturating addition, componentwise.
pub open spec fn spec_vadd(a: FxVec, b: FxVec) -> FxVec {
    FxVec { x: Fx(sat64(a.x.0 + b.x.0)), y: Fx(sat64(a.y.0 + b.y.0)) }
}

/// Saturating subtraction, componentwise.
pub open spec fn spec_vsub(a: FxVec, b: FxVec) -> FxVec {
    FxVec { x: Fx(sat64(a.x.0 - b.x.0)), y: Fx(sat64(a.y.0 - b.y.0)) }
}

impl FxVec {
    /// The vector with both components given in whole units.
    pub fn from_ints(x: i32, y: i32) -> (r: FxVec)
        ensures
            r.x.0 == x * 65536,
            r.y.0 == y * 65536,
    {
        FxVec { x: Fx::from_int(x), y: Fx::from_int(y) }
    }

    /// Saturating vector addition.
    pub fn add(self, other: FxVec) -> (r: FxVec)
        ensures
            r == spec_vadd(self, other),
    {
        FxVec { x: self.x.add(other.x), y: self.y.add(other.y) }
    }

    /// Saturating vector subtraction.
    pub fn sub(self, other: FxVec) -> (r: FxVec)
        ensures
            r == spec_vsub(self, other),
    {
        FxVec { x: self.x.sub(other.x), y: self.y.sub(other.y) }
    }
}

/// An axis-aligned rectangle. An empty rectangle is the sentinel whose `min`
/// sits above its `max`, so that expanding it by one point yields exactly
/// that point.
#[derive(Clone, Copy, Debug, PartialEq, Eq, Structural)]
pub struct Rect {
    pub min: FxVec,
    pub max: FxVec,
}

/// The empty sentinel rectangle.
pub open spec fn spec_empty_rect() -> Rect {
    Rect {
        min: FxVec { x: Fx(i64::MAX), y: Fx(i64::MAX) },
        max: FxVec { x: Fx(i64::MIN), y: Fx(i64::MIN) },
    }
}

/// Whether the rectangle contains the point.
pub open spec fn rect_contains(r: Rect, p: FxVec) -> bool {
    &&& r.min.x.0 <= p.x.0 <= r.max.x.0
    &&& r.min.y.0 <= p.y.0 <= r.max.y.0
}

/// The smallest rectangle containing both the rectangle and the point.
pub open spec fn spec_expand(r: Rect, p: FxVec) -> Rect {
    Rect {
        min: FxVec {
            x: if p.x.0 <= r.min.x.0 {
                p.x
            } else {
                r.min.x
            },
            y: if p.y.0 <= r.min.y.0 {
                p.y
            } else {
                r.min.y
            },
        },
        max: FxVec {
            x: if p.x.0 >= r.max.x.0 {
                p.x
            } else {
                r.max.x
            },
            y: if p.y.0 >= r.max.y.0 {
                p.y
            } else {
                r.max.y
            },
        },
    }
}

impl Rect {
    /// The empty sentinel rectangle.
    pub fn empty() -> (r: Rect)
        ensures
            r == spec_empty_rect(),
    {
        Rect {
            min: FxVec { x: Fx(i64::MAX), y: Fx(i64::MAX) },
            max: FxVec { x: Fx(i64::MIN), y: Fx(i64::MIN) },
        }
    }

    /// The rectangle with the given corners.
    pub fn from_min_max(min: FxVec, max: FxVec) -> (r: Rect)
        ensures
            r.min == min && r.max == max,
    {
        Rect { min, max }
    }

    /// The rectangle at `min` extending by `size`.
    pub fn from_min_size(min: FxVec, size: FxVec) -> (r: Rect)
        ensures
            r.min == min && r.max == spec_vadd(min, size),
    {
        Rect { min, max: min.add(size) }
    }

    /// The corner with both coordinates smallest.
    pub fn tl(&self) -> (p: FxVec)
        ensures
            p == self.min,
    {
        self.min
    }

    /// The corner with the largest `x` and the smallest `y`.
    pub fn tr(&self) -> (p: FxVec)
        ensures
            p == (FxVec { x: self.max.x, y: self.min.y }),
    {
        FxVec { x: self.max.x, y: self.min.y }
    }

    /// The corner with the smallest `x` and the largest `y`.
    pub fn bl(&self) -> (p: FxVec)
        ensures
            p == (FxVec { x: self.min.x, y: self.max.y }),
    {
        FxVec { x: self.min.x, y: self.max.y }
    }

    /// The corner with both coordinates largest.
    pub fn br(&self) -> (p: FxVec)
        ensures
            p == self.max,
    {
        self.max
    }

    /// The four corners in drawing order: top-left, top-right, bottom-right,
    /// bottom-left (with `y` growing downward).
    pub fn corners(&self) -> (c: [FxVec; 4])
        ensures
            c[0] == self.min,
            c[1] == (FxVec { x: self.max.x, y: self.min.y }),
            c[2] == self.max,
            c[3] == (FxVec { x: self.min.x, y: self.max.y }),
    {
        [self.tl(), self.tr(), self.br(), self.bl()]
    }

    /// Grows the rectangle to contain the point.
    pub fn expand_to_contain(&mut self, p: FxVec)
        ensures
            *final(self) == spec_expand(*old(self), p),
    {
        self.min.x = self.min.x.min(p.x);
        self.min.y = self.min.y.min(p.y);
        self.max.x = self.max.x.max(p.x);
        self.max.y = self.max.y.max(p.y);
    }
}

impl Default for Rect {
    /// The empty sentinel rectangle.
    fn default() -> (r: Rect)
        ensures
            r == spec_empty_rect(),
    {
        Rect::empty()
    }
}

/// A 2D affine transform: a linear part and a translation, both in
/// fixed-point.
#[derive(Clone, Copy, Debug, PartialEq, Eq, Structural)]
pub struct Transform {
    pub xx: Fx,
    pub xy: Fx,
    pub yx: Fx,
    pub yy: Fx,
    pub tx: Fx,
    pub ty: Fx,
}

/// The identity transform.
pub open spec fn spec_identity() -> Transform {
    Transform { xx: Fx(FX_ONE), xy: Fx(0), yx: Fx(0), yy: Fx(FX_ONE), tx: Fx(0), ty: Fx(0) }
}

/// A fixed-point product, rounded toward zero and saturated.
pub open spec fn fx_mul_spec(a: Fx, b: Fx) -> Fx {
    Fx(sat64(tdiv(a.0 * b.0, 65536)))
}

/// A saturating fixed-point sum.
pub open spec fn fx_add_spec(a: Fx, b: Fx) -> Fx {
    Fx(sat64(a.0 + b.0))
}

/// A saturating fixed-point difference.
pub open spec fn fx_sub_spec(a: Fx, b: Fx) -> Fx {
    Fx(sat64(a.0 - b.0))
}

/// A scalar scaled by the rational `num / den`, rounded toward zero and
/// saturated.
pub open spec fn fx_frac_spec(a: Fx, num: u32, den: u32) -> Fx {
    Fx(sat64(tdiv(a.0 * num, den as int)))
}

/// The transform applied to a point: the linear part times the point, plus
/// the translation, each step saturating.
pub open spec fn spec_apply(t: Transform, p: FxVec) -> FxVec {
    FxVec {
        x: fx_add_spec(fx_add_spec(fx_mul_spec(t.xx, p.x), fx_mul_spec(t.xy, p.y)), t.tx),
        y: fx_add_spec(fx_add_spec(fx_mul_spec(t.yx, p.x), fx_mul_spec(t.yy, p.y)), t.ty),
    }
}

impl Transform {
    /// The identity transform.
    pub fn identity() -> (t: Transform)
        ensures
            t == spec_identity(),
    {
        Transform { xx: Fx(FX_ONE), xy: Fx(0), yx: Fx(0), yy: Fx(FX_ONE), tx: Fx(0), ty: Fx(0) }
    }

    /// Applies the transform to a point.
    pub fn apply(&self, p: FxVec) -> (r: FxVec)
        ensures
            r == spec_apply(*self, p),
    {
        let x = self.xx.mul(p.x).add(self.xy.mul(p.y)).add(self.tx);
        let y = self.yx.mul(p.x).add(self.yy.mul(p.y)).add(self.ty);
        FxVec { x, y }
    }
}

impl Default for Transform {
    /// The identity transform.
    fn default() -> (t: Transform)
        ensures
            t == spec_identity(),
    {
        Transform::identity()
    }
}

/// The identity transform moves no point.
pub proof fn lemma_apply_identity(p: FxVec)
    ensures
        spec_apply(spec_identity(), p) == p,
{
    lemma_mul_one_exact(p.x.0 as int);
    lemma_mul_one_exact(p.y.0 as int);
}

/// Multiplying a raw value by the fixed-point one is exact.
proof fn lemma_mul_one_exact(v: int)
    requires
        i64::MIN <= v <= i64::MAX,
    ensures
        sat64(tdiv(v * FX_ONE, 65536)) == v,
{
    if v >= 0 {
        lemma_div_multiples_vanish(v, 65536);
    } else {
        lemma_div_multiples_vanish(-v, 65536);
        assert((-v) * 65536 == -(v * 65536));
    }
}

/// Half a turn, as a fixed-point turn fraction.
pub const TURN_HALF: i64 = 32768;

/// A quarter turn, as a fixed-point turn fraction.
pub const TURN_QUARTER: i64 = 16384;

/// The rational half-turn sine: for `t` in `[0, 32768]` (a half turn),
/// `64 u 65536 / (5 * 65536 - 16 u)` with `u = t (32768 - t) / 65536`. It is
/// exact at 0, a quarter turn and a half turn, and within two thousandths of
/// the true sine elsewhere.
pub open spec fn bhaskara(t: int) -> int {
    let u = (t * (32768 - t)) / 65536;
    (64 * u * 65536) / (5 * 65536 - 16 * u)
}

/// A turn fraction reduced into `[0, 65536)`.
pub open spec fn turn_frac(t: int) -> int {
    t % 65536
}

/// The fixed-point sine of a turn fraction: the rational approximation on the
/// first half turn, mirrored and negated on the second.
pub open spec fn sin_turn_spec(t: int) -> int {
    let tr = turn_frac(t);
    if tr <= 32768 {
        bhaskara(tr)
    } else {
        -bhaskara(tr - 32768)
    }
}

/// The fixed-point cosine of a turn fraction: the sine a quarter turn ahead.
pub open spec fn cos_turn_spec(t: int) -> int {
    sin_turn_spec(t + TURN_QUARTER)
}

/// The rational half-turn sine, exactly and within `[0, 65536]`.
fn bhaskara_half(t: i64) -> (r: i64)
    requires
        0 <= t <= 32768,
    ensures
        r == bhaskara(t as int),
        0 <= r <= 65536,
{
    proof {
        assert(t * (32768 - t) <= 16384 * 16384) by (nonlinear_arith)
            requires
                0 <= t <= 32768,
        ;
        assert(t * (32768 - t) >= 0) by (nonlinear_arith)
            requires
                0 <= t <= 32768,
        ;
    }
    let prod: u64 = (t as u64) * ((32768 - t) as u64);
    let u: u64 = prod / 65536;
    proof {
        lemma_div_is_ordered(prod as int, 268435456int, 65536int);
    }
    let num: u64 = 64 * u * 65536;
    let den: u64 = 5 * 65536 - 16 * u;
    proof {
        lemma_div_is_ordered(num as int, 65536int * (den as int), den as int);
        lemma_div_multiples_vanish(65536int, den as int);
    }
    let r: u64 = num / den;
    r as i64
}

/// The fixed-point sine of a turn fraction, in `[-65536, 65536]`.
pub fn sin_turn(t: Fx) -> (r: Fx)
    ensures
        r.0 == sin_turn_spec(t.0 as int),
        -65536 <= r.0 <= 65536,
{
    let tr: i64 = match t.0.checked_rem_euclid(65536) {
        Some(v) => v,
        None => unreached(),
    };
    proof {
        lemma_mod_division_less_than_divisor(t.0 as int, 65536int);
    }
    if tr <= 32768 {
        Fx(bhaskara_half(tr))
    } else {
        Fx(-bhaskara_half(tr - 32768))
    }
}

/// The fixed-point cosine of a turn fraction, in `[-65536, 65536]`.
pub fn cos_turn(t: Fx) -> (r: Fx)
    ensures
        r.0 == cos_turn_spec(t.0 as int),
        -65536 <= r.0 <= 65536,
{
    let tr: i64 = match t.0.checked_rem_euclid(65536) {
        Some(v) => v,
        None => unreached(),
    };
    proof {
        lemma_mod_division_less_than_divisor(t.0 as int, 65536int);
        lemma_small_mod(16384nat, 65536nat);
        lemma_add_mod_noop(t.0 as int, 16384int, 65536int);
        assert(turn_frac(tr + 16384) == turn_frac(t.0 + 16384));
    }
    let r = sin_turn(Fx(tr + 16384));
    r
}

/// The squared length of a vector, as a mathematical integer.
pub open spec fn len_sq(p: FxVec) -> int {
    p.x.0 * p.x.0 + p.y.0 * p.y.0
}

/// The fixed-point length of a vector: the integer square root of its squared
/// length.
pub open spec fn fx_len(p: FxVec) -> int {
    isqrt_spec(len_sq(p))
}

/// Computes the fixed-point length of a vector.
pub fn vec_len(p: FxVec) -> (r: u64)
    ensures
        r == fx_len(p),
        is_isqrt(len_sq(p), r as int),
{
    let ax: u128 = if p.x.0 >= 0 {
        p.x.0 as u128
    } else {
        (-(p.x.0 as i128)) as u128
    };
    let ay: u128 = if p.y.0 >= 0 {
        p.y.0 as u128
    } else {
        (-(p.y.0 as i128)) as u128
    };
    proof {
        lemma_mul_bound(ax as int, ax as int, 0x8000_0000_0000_0000);
        lemma_mul_bound(ay as int, ay as int, 0x8000_0000_0000_0000);
        assert(ax * ax == p.x.0 * p.x.0) by (nonlinear_arith)
            requires
                ax == p.x.0 || ax == -(p.x.0 as int),
                ax >= 0,
        ;
        assert(ay * ay == p.y.0 * p.y.0) by (nonlinear_arith)
            requires
                ay == p.y.0 || ay == -(p.y.0 as int),
                ay >= 0,
        ;
    }
    let n: u128 = ax * ax + ay * ay;
    isqrt(n)
}

} // verus!
