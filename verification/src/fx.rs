//! Exact fixed-point scalar used for every mesh coordinate.
//!
//! A value is an `i64` count of 1/65536 steps (16 fractional bits).  All
//! arithmetic is exact integer arithmetic on the raw representation, so two
//! equal coordinates are bit-identical and vertex deduplication is decidable.
//!
//! Multiplication and division truncate toward zero.  That rounding policy
//! is a deliberate choice, not an accident of the implementation: under
//! truncation toward zero the six-slot rotation table is exactly
//! invertible on unit coordinates (`lemma_rotation_inverse` proves it for
//! every slot), while rounding toward minus infinity breaks the identity
//! on negative products.  The policy is uniform across every operation and
//! the numeral parser, so builds are bit-identical on every platform.

use vstd::prelude::*;

verus! {

/// Number of raw steps in 1.0 (16 fractional bits).
pub const FX_SCALE: i64 = 65536;

/// A fixed-point number: `raw` counts of 1/65536.
#[derive(Clone, Copy, PartialEq, Eq, Structural, Hash, Debug)]
pub struct Fx {
    pub raw: i64,
}

impl Fx {
    /// Raw product of two fixed-point values, truncated toward zero.
    pub open spec fn spec_mul(a: i64, b: i64) -> int {
        let p = a * b;
        if p >= 0 {
            p / (FX_SCALE as int)
        } else {
            -((-p) / (FX_SCALE as int))
        }
    }

    pub fn from_raw(raw: i64) -> (r: Fx)
        ensures
            r.raw == raw,
    {
        Fx { raw }
    }

    pub fn zero() -> (r: Fx)
        ensures
            r.raw == 0,
    {
        Fx { raw: 0 }
    }

    pub fn one() -> (r: Fx)
        ensures
            r.raw == FX_SCALE,
    {
        Fx { raw: FX_SCALE }
    }

    pub fn add(self, rhs: Fx) -> (r: Fx)
        requires
            i64::MIN <= self.raw + rhs.raw <= i64::MAX,
        ensures
            r.raw == self.raw + rhs.raw,
    {
        Fx { raw: self.raw + rhs.raw }
    }

    pub fn sub(self, rhs: Fx) -> (r: Fx)
        requires
            i64::MIN <= self.raw - rhs.raw <= i64::MAX,
        ensures
            r.raw == self.raw - rhs.raw,
    {
        Fx { raw: self.raw - rhs.raw }
    }

    /// Fixed-point multiplication, truncating toward zero.
    pub fn mul(self, rhs: Fx) -> (r: Fx)
        requires
            -(i64::MAX as int) <= self.raw * rhs.raw <= i64::MAX as int,
        ensures
            r.raw == Fx::spec_mul(self.raw, rhs.raw),
    {
        let p: i64 = self.raw * rhs.raw;
        if p >= 0 {
            let mag: u64 = p as u64;
            let q: u64 = mag / 65536;
            Fx { raw: q as i64 }
        } else {
            let mag: u64 = (-p) as u64;
            let q: u64 = mag / 65536;
            Fx { raw: -(q as i64) }
        }
    }

    /// Raw quotient of two fixed-point values, truncated toward zero.
    pub open spec fn spec_div(a: i64, b: i64) -> int {
        let p = a * (FX_SCALE as int);
        let pa = if p >= 0 {
            p
        } else {
            -p
        };
        let ba = if b >= 0 {
            b as int
        } else {
            -(b as int)
        };
        let q = pa / ba;
        if (a >= 0) == (b >= 0) {
            q
        } else {
            -q
        }
    }

    /// Fixed-point division, truncating toward zero.
    pub fn div(self, rhs: Fx) -> (r: Fx)
        requires
            rhs.raw != 0,
            -0x7FFF_FFFF_FFFF <= self.raw <= 0x7FFF_FFFF_FFFF,
            i64::MIN < rhs.raw,
        ensures
            r.raw == Fx::spec_div(self.raw, rhs.raw),
    {
        let neg = (self.raw < 0) != (rhs.raw < 0);
        let pa: u64 = if self.raw < 0 {
            ((-self.raw) as u64) * 65536
        } else {
            (self.raw as u64) * 65536
        };
        let ba: u64 = if rhs.raw < 0 {
            (-rhs.raw) as u64
        } else {
            rhs.raw as u64
        };
        let q: u64 = pa / ba;
        proof {
            assert(q <= pa);
        }
        if neg {
            Fx { raw: -(q as i64) }
        } else {
            Fx { raw: q as i64 }
        }
    }

    /// The largest of two fixed-point values.
    pub fn max(self, rhs: Fx) -> (r: Fx)
        ensures
            r.raw == if self.raw >= rhs.raw { self.raw } else { rhs.raw },
    {
        if self.raw >= rhs.raw {
            self
        } else {
            rhs
        }
    }
}

/// With nonnegative factors, truncating multiplication is monotone in its
/// first factor's bound.
pub proof fn lemma_mul_pos_bound(a: i64, b: i64, ca: int)
    requires
        0 <= a <= ca,
        0 <= b,
    ensures
        0 <= Fx::spec_mul(a, b) <= (ca * b) / (FX_SCALE as int),
{
    let p = a * b;
    assert(0 <= p <= ca * b) by (nonlinear_arith)
        requires
            0 <= a <= ca,
            0 <= b,
            p == a * b,
    ;
    assert(p / (FX_SCALE as int) <= (ca * b) / (FX_SCALE as int)) by (nonlinear_arith)
        requires
            0 <= p <= ca * b,
    ;
}

/// Truncating multiplication keeps the magnitude under `m * n` whenever the
/// first factor stays within `m` and the second within `n` units of scale.
pub proof fn lemma_mul_bound(a: i64, b: i64, m: int, n: int)
    requires
        0 <= m,
        0 <= n,
        -m <= a <= m,
        -(n * FX_SCALE) <= b <= n * FX_SCALE,
    ensures
        -(m * n) <= Fx::spec_mul(a, b) <= m * n,
{
    let p = a * b;
    assert(-(m * n * FX_SCALE) <= p <= m * n * FX_SCALE) by (nonlinear_arith)
        requires
            0 <= m,
            0 <= n,
            -m <= a <= m,
            -(n * FX_SCALE) <= b <= n * FX_SCALE,
            p == a * b,
    ;
    if p >= 0 {
        assert(p / (FX_SCALE as int) <= m * n) by (nonlinear_arith)
            requires
                0 <= p <= m * n * FX_SCALE,
                0 <= m * n,
        ;
    } else {
        assert((-p) / (FX_SCALE as int) <= m * n) by (nonlinear_arith)
            requires
                0 <= -p <= m * n * FX_SCALE,
                0 <= m * n,
        ;
    }
}

} // verus!
