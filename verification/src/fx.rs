//! The geometry scalar: a signed 16.16 fixed-point number.
//!
//! Every operation is total. Sums and differences saturate at the
//! representable range; products and quotients round toward zero. This keeps
//! all geometry exact and deterministic, which the builder's replay law
//! relies on.

use vstd::prelude::*;
use vstd::arithmetic::div_mod::lemma_div_decreases;

verus! {

/// The fixed-point one: values carry 16 fraction bits.
pub const FX_ONE: i64 = 65536;

/// A signed 16.16 fixed-point number. The raw field counts 1/65536ths.
#[derive(Clone, Copy, Debug, PartialEq, Eq, Structural)]
pub struct Fx(pub i64);

/// A mathematical value clamped to the representable range.
pub open spec fn sat64(v: int) -> i64 {
    if v > i64::MAX {
        i64::MAX
    } else if v < i64::MIN {
        i64::MIN
    } else {
        v as i64
    }
}

/// Division rounding toward zero, for a positive divisor.
pub open spec fn tdiv(p: int, d: int) -> int {
    if p >= 0 {
        p / d
    } else {
        -((-p) / d)
    }
}

/// The magnitude of a product is the product of the magnitudes.
proof fn lemma_abs_mul(a: int, b: int)
    ensures
        vstd::math::abs(a * b) == vstd::math::abs(a) * vstd::math::abs(b),
{
    assert(vstd::math::abs(a * b) == vstd::math::abs(a) * vstd::math::abs(b)) by (nonlinear_arith);
}

/// Products of bounded values are bounded.
pub proof fn lemma_mul_bound(a: int, b: int, m: int)
    requires
        -m <= a <= m,
        -m <= b <= m,
        0 <= m,
    ensures
        -(m * m) <= a * b <= m * m,
{
    assert(-(m * m) <= a * b <= m * m) by (nonlinear_arith)
        requires
            -m <= a <= m,
            -m <= b <= m,
            0 <= m,
    ;
}

/// Saturating addition.
pub fn add_sat(a: i64, b: i64) -> (r: i64)
    ensures
        r == sat64(a + b),
{
    match a.checked_add(b) {
        Some(v) => v,
        None => if b > 0 {
            i64::MAX
        } else {
            i64::MIN
        },
    }
}

/// Saturating subtraction.
pub fn sub_sat(a: i64, b: i64) -> (r: i64)
    ensures
        r == sat64(a - b),
{
    match a.checked_sub(b) {
        Some(v) => v,
        None => if b < 0 {
            i64::MAX
        } else {
            i64::MIN
        },
    }
}

/// The product of two raw values, divided by a positive denominator, rounded
/// toward zero and saturated. The one workhorse behind fixed-point products,
/// quotients and parameter interpolation.
pub fn mul_div_sat(a: i64, b: i64, den: u128) -> (r: i64)
    requires
        den > 0,
    ensures
        r == sat64(tdiv(a * b, den as int)),
{
    proof {
        lemma_mul_bound(a as int, b as int, 0x8000_0000_0000_0000);
        lemma_abs_mul(a as int, b as int);
    }
    let ua: u128 = if a >= 0 {
        a as u128
    } else {
        (-(a as i128)) as u128
    };
    let ub: u128 = if b >= 0 {
        b as u128
    } else {
        (-(b as i128)) as u128
    };
    let negative = (a < 0) != (b < 0);
    proof {
        assert(ua == vstd::math::abs(a as int));
        assert(ub == vstd::math::abs(b as int));
    }
    let p: u128 = ua * ub;
    proof {
        assert(p == vstd::math::abs(a * b));
    }
    let q: u128 = p / den;
    proof {
        if negative {
            assert(a * b <= 0) by (nonlinear_arith)
                requires
                    (a < 0) != (b < 0),
            ;
        } else {
            assert(a * b >= 0) by (nonlinear_arith)
                requires
                    (a < 0) == (b < 0),
            ;
        }
        if a * b >= 0 {
            assert(q == tdiv(a * b, den as int));
        } else {
            assert(q == (-(a * b)) / (den as int));
            assert(tdiv(a * b, den as int) == -(q as int));
        }
    }
    if negative {
        if q > 0x8000_0000_0000_0000u128 {
            i64::MIN
        } else if q == 0x8000_0000_0000_0000u128 {
            i64::MIN
        } else {
            -(q as i64)
        }
    } else {
        if q > i64::MAX as u128 {
            i64::MAX
        } else {
            q as i64
        }
    }
}

impl Fx {
    /// A whole number as a scalar.
    pub fn from_int(v: i32) -> (r: Fx)
        ensures
            r.0 == v * 65536,
    {
        Fx((v as i64) * 65536)
    }

    /// The whole part of the scalar, rounded toward zero.
    pub fn trunc(self) -> (r: i64)
        ensures
            r == tdiv(self.0 as int, 65536),
    {
        if self.0 >= 0 {
            self.0 / 65536
        } else {
            let m: u128 = (-(self.0 as i128)) as u128;
            -((m / 65536) as i64)
        }
    }

    /// Saturating addition.
    pub fn add(self, other: Fx) -> (r: Fx)
        ensures
            r.0 == sat64(self.0 + other.0),
    {
        Fx(add_sat(self.0, other.0))
    }

    /// Saturating subtraction.
    pub fn sub(self, other: Fx) -> (r: Fx)
        ensures
            r.0 == sat64(self.0 - other.0),
    {
        Fx(sub_sat(self.0, other.0))
    }

    /// Saturating negation.
    pub fn neg(self) -> (r: Fx)
        ensures
            r.0 == sat64(-self.0),
    {
        Fx(sub_sat(0, self.0))
    }

    /// The fixed-point product, rounded toward zero and saturated.
    pub fn mul(self, other: Fx) -> (r: Fx)
        ensures
            r.0 == sat64(tdiv(self.0 * other.0, 65536)),
    {
        Fx(mul_div_sat(self.0, other.0, 65536))
    }

    /// The smaller of two scalars.
    pub fn min(self, other: Fx) -> (r: Fx)
        ensures
            r.0 == if self.0 <= other.0 {
                self.0
            } else {
                other.0
            },
    {
        if self.0 <= other.0 {
            self
        } else {
            other
        }
    }

    /// The larger of two scalars.
    pub fn max(self, other: Fx) -> (r: Fx)
        ensures
            r.0 == if self.0 >= other.0 {
                self.0
            } else {
                other.0
            },
    {
        if self.0 >= other.0 {
            self
        } else {
            other
        }
    }

    /// The scalar scaled by the rational `num / den`, rounded toward zero.
    pub fn mul_frac(self, num: u32, den: u32) -> (r: Fx)
        requires
            den > 0,
        ensures
            r.0 == sat64(tdiv(self.0 * num, den as int)),
    {
        Fx(mul_div_sat(self.0, num as i64, den as u128))
    }
}

/// Whether `r` is the integer square root of `n`.
pub open spec fn is_isqrt(n: int, r: int) -> bool {
    &&& 0 <= r
    &&& r * r <= n
    &&& n < (r + 1) * (r + 1)
}

/// Every nonnegative number has an integer square root.
pub proof fn lemma_isqrt_exists(n: int)
    requires
        0 <= n,
    ensures
        exists|r: int| #[trigger] is_isqrt(n, r),
    decreases n,
{
    if n == 0 {
        assert(is_isqrt(0, 0));
    } else {
        lemma_isqrt_exists(n - 1);
        let r = choose|r: int| #[trigger] is_isqrt(n - 1, r);
        if n < (r + 1) * (r + 1) {
            assert(is_isqrt(n, r));
        } else {
            assert(n == (r + 1) * (r + 1));
            assert((r + 2) * (r + 2) > n) by (nonlinear_arith)
                requires
                    n == (r + 1) * (r + 1),
                    r >= 0,
            ;
            assert(is_isqrt(n, r + 1));
        }
    }
}

/// Integer square roots are unique.
pub proof fn lemma_isqrt_unique(n: int, r1: int, r2: int)
    requires
        is_isqrt(n, r1),
        is_isqrt(n, r2),
    ensures
        r1 == r2,
{
    assert(r1 == r2) by (nonlinear_arith)
        requires
            0 <= r1 && r1 * r1 <= n < (r1 + 1) * (r1 + 1),
            0 <= r2 && r2 * r2 <= n < (r2 + 1) * (r2 + 1),
    ;
}

/// The integer square root of a nonnegative number.
pub open spec fn isqrt_spec(n: int) -> int {
    choose|r: int| #[trigger] is_isqrt(n, r)
}

/// The integer square root, by binary search over the result.
pub fn isqrt(n: u128) -> (r: u64)
    ensures
        is_isqrt(n as int, r as int),
        r == isqrt_spec(n as int),
{
    let mut lo: u64 = 0;
    let mut hi: u64 = u64::MAX;
    proof {
        assert((hi + 1) * (hi + 1) > n) by (nonlinear_arith)
            requires
                hi == u64::MAX,
                n <= u128::MAX,
        ;
    }
    while lo < hi
        invariant
            lo <= hi,
            lo * lo <= n,
            n < (hi + 1) * (hi + 1),
        decreases hi - lo,
    {
        let half: u64 = (hi - lo) / 2;
        let mid: u64 = hi - half;
        proof {
            lemma_div_decreases((hi - lo) as int, 2);
            lemma_mul_bound(mid as int, mid as int, 0xFFFF_FFFF_FFFF_FFFF);
        }
        let sq: u128 = (mid as u128) * (mid as u128);
        if sq <= n {
            lo = mid;
        } else {
            hi = mid - 1;
        }
    }
    proof {
        lemma_isqrt_exists(n as int);
        let w = choose|w: int| #[trigger] is_isqrt(n as int, w);
        lemma_isqrt_unique(n as int, lo as int, w);
    }
    lo
}

} // verus!
