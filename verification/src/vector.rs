//! Exact three-component vector over the fixed-point scalar.

use crate::fx::Fx;
use crate::fx::FX_SCALE;
use vstd::prelude::*;

verus! {

/// A position in space, each component an exact fixed-point number.
#[derive(Clone, Copy, PartialEq, Eq, Structural, Hash, Debug)]
pub struct RVec3 {
    pub x: Fx,
    pub y: Fx,
    pub z: Fx,
}

impl RVec3 {
    pub fn new(x: Fx, y: Fx, z: Fx) -> (r: RVec3)
        ensures
            r == (RVec3 { x, y, z }),
    {
        RVec3 { x, y, z }
    }

    /// Component-wise sum.
    pub open spec fn spec_add(self, rhs: RVec3) -> RVec3 {
        RVec3 {
            x: Fx { raw: (self.x.raw + rhs.x.raw) as i64 },
            y: Fx { raw: (self.y.raw + rhs.y.raw) as i64 },
            z: Fx { raw: (self.z.raw + rhs.z.raw) as i64 },
        }
    }

    /// True when every component's raw value stays within `m` in magnitude.
    pub open spec fn bounded(self, m: int) -> bool {
        &&& -m <= self.x.raw <= m
        &&& -m <= self.y.raw <= m
        &&& -m <= self.z.raw <= m
    }

    pub fn add(self, rhs: RVec3) -> (r: RVec3)
        requires
            i64::MIN <= self.x.raw + rhs.x.raw <= i64::MAX,
            i64::MIN <= self.y.raw + rhs.y.raw <= i64::MAX,
            i64::MIN <= self.z.raw + rhs.z.raw <= i64::MAX,
        ensures
            r == self.spec_add(rhs),
    {
        RVec3 { x: self.x.add(rhs.x), y: self.y.add(rhs.y), z: self.z.add(rhs.z) }
    }

    /// Component-wise difference.
    pub open spec fn spec_sub(self, rhs: RVec3) -> RVec3 {
        RVec3 {
            x: Fx { raw: (self.x.raw - rhs.x.raw) as i64 },
            y: Fx { raw: (self.y.raw - rhs.y.raw) as i64 },
            z: Fx { raw: (self.z.raw - rhs.z.raw) as i64 },
        }
    }

    pub fn sub(self, rhs: RVec3) -> (r: RVec3)
        requires
            i64::MIN <= self.x.raw - rhs.x.raw <= i64::MAX,
            i64::MIN <= self.y.raw - rhs.y.raw <= i64::MAX,
            i64::MIN <= self.z.raw - rhs.z.raw <= i64::MAX,
        ensures
            r == self.spec_sub(rhs),
    {
        RVec3 { x: self.x.sub(rhs.x), y: self.y.sub(rhs.y), z: self.z.sub(rhs.z) }
    }

    /// Every component scaled by `s`, truncating toward zero.
    pub open spec fn spec_mul(self, s: Fx) -> RVec3 {
        RVec3 {
            x: Fx { raw: Fx::spec_mul(self.x.raw, s.raw) as i64 },
            y: Fx { raw: Fx::spec_mul(self.y.raw, s.raw) as i64 },
            z: Fx { raw: Fx::spec_mul(self.z.raw, s.raw) as i64 },
        }
    }

    pub fn mul(self, s: Fx) -> (r: RVec3)
        requires
            -(i64::MAX as int) <= self.x.raw * s.raw <= i64::MAX as int,
            -(i64::MAX as int) <= self.y.raw * s.raw <= i64::MAX as int,
            -(i64::MAX as int) <= self.z.raw * s.raw <= i64::MAX as int,
        ensures
            r == self.spec_mul(s),
    {
        RVec3 { x: self.x.mul(s), y: self.y.mul(s), z: self.z.mul(s) }
    }

    /// Every component divided by `s`, truncating toward zero.
    pub open spec fn spec_div(self, s: Fx) -> RVec3 {
        RVec3 {
            x: Fx { raw: Fx::spec_div(self.x.raw, s.raw) as i64 },
            y: Fx { raw: Fx::spec_div(self.y.raw, s.raw) as i64 },
            z: Fx { raw: Fx::spec_div(self.z.raw, s.raw) as i64 },
        }
    }

    pub fn div(self, s: Fx) -> (r: RVec3)
        requires
            s.raw != 0,
            i64::MIN < s.raw,
            self.bounded(0x7FFF_FFFF_FFFF),
        ensures
            r == self.spec_div(s),
    {
        RVec3 { x: self.x.div(s), y: self.y.div(s), z: self.z.div(s) }
    }

    /// The horizontal-plane rotation `x' = x cos - z sin; z' = z cos + x sin`,
    /// leaving the vertical component untouched.
    pub open spec fn spec_rotate_y(self, sin: Fx, cos: Fx) -> RVec3 {
        RVec3 {
            x: Fx {
                raw: (Fx::spec_mul(self.x.raw, cos.raw) - Fx::spec_mul(self.z.raw, sin.raw)) as i64,
            },
            y: self.y,
            z: Fx {
                raw: (Fx::spec_mul(self.z.raw, cos.raw) + Fx::spec_mul(self.x.raw, sin.raw)) as i64,
            },
        }
    }

    pub fn rotate_y(&mut self, sin: Fx, cos: Fx)
        requires
            -FX_ROT_COORD_MAX <= old(self).x.raw <= FX_ROT_COORD_MAX,
            -FX_ROT_COORD_MAX <= old(self).z.raw <= FX_ROT_COORD_MAX,
            -FX_SCALE <= sin.raw <= FX_SCALE,
            -FX_SCALE <= cos.raw <= FX_SCALE,
        ensures
            *final(self) == old(self).spec_rotate_y(sin, cos),
            final(self).bounded_xz(2 * FX_ROT_COORD_MAX),
    {
        proof {
            crate::fx::lemma_mul_bound(self.x.raw, cos.raw, FX_ROT_COORD_MAX as int, 1);
            crate::fx::lemma_mul_bound(self.z.raw, sin.raw, FX_ROT_COORD_MAX as int, 1);
            crate::fx::lemma_mul_bound(self.z.raw, cos.raw, FX_ROT_COORD_MAX as int, 1);
            crate::fx::lemma_mul_bound(self.x.raw, sin.raw, FX_ROT_COORD_MAX as int, 1);
        }
        let x = self.x.mul(cos).sub(self.z.mul(sin));
        let z = self.z.mul(cos).add(self.x.mul(sin));
        self.x = x;
        self.z = z;
    }

    /// True when the two horizontal components stay within `m` in magnitude.
    pub open spec fn bounded_xz(self, m: int) -> bool {
        &&& -m <= self.x.raw <= m
        &&& -m <= self.z.raw <= m
    }
}

/// Largest horizontal coordinate magnitude accepted by a rotation.
pub const FX_ROT_COORD_MAX: i64 = 0x100_0000_0000;

/// A rotation at most doubles the horizontal magnitude bound and never
/// touches the vertical component.
pub proof fn lemma_rotate_y_bound(v: RVec3, sin: Fx, cos: Fx, m: int)
    requires
        0 <= m,
        v.bounded_xz(m),
        -FX_SCALE <= sin.raw <= FX_SCALE,
        -FX_SCALE <= cos.raw <= FX_SCALE,
    ensures
        v.spec_rotate_y(sin, cos).bounded_xz(2 * m),
        v.spec_rotate_y(sin, cos).y == v.y,
{
    crate::fx::lemma_mul_bound(v.x.raw, cos.raw, m, 1);
    crate::fx::lemma_mul_bound(v.z.raw, sin.raw, m, 1);
    crate::fx::lemma_mul_bound(v.z.raw, cos.raw, m, 1);
    crate::fx::lemma_mul_bound(v.x.raw, sin.raw, m, 1);
}

impl Default for RVec3 {
    fn default() -> (r: RVec3)
        ensures
            r == (RVec3 { x: Fx { raw: 0 }, y: Fx { raw: 0 }, z: Fx { raw: 0 } }),
    {
        RVec3 { x: Fx { raw: 0 }, y: Fx { raw: 0 }, z: Fx { raw: 0 } }
    }
}

} // verus!
