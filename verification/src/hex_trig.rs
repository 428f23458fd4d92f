//! The six precomputed (sine, cosine) pairs for 60-degree hex rotation slots.
//!
//! The constants are literal fixed-point values, never computed through
//! runtime trigonometry, so rotation results are bit-exact on every platform.

use crate::fx::Fx;
use vstd::prelude::*;

verus! {

/// Raw cosine of slot `k` (60 degrees times `k`), at 16 fractional bits.
pub open spec fn spec_rot_cos_raw(k: int) -> i64 {
    if k == 0 {
        65536
    } else if k == 1 {
        32768
    } else if k == 2 {
        -32768i64
    } else if k == 3 {
        -65536i64
    } else if k == 4 {
        -32768i64
    } else {
        32768
    }
}

/// Raw sine of slot `k` (60 degrees times `k`), at 16 fractional bits.
/// 56756 is 0.86602540378 (half the square root of three) rounded to the
/// nearest representable step.
pub open spec fn spec_rot_sin_raw(k: int) -> i64 {
    if k == 0 {
        0
    } else if k == 1 {
        56756
    } else if k == 2 {
        56756
    } else if k == 3 {
        0
    } else if k == 4 {
        -56756i64
    } else {
        -56756i64
    }
}

/// Access to the six rotation-slot constants of a fixed-point scalar type.
pub trait HexTrig: Sized {
    spec fn spec_rotations_sin(k: int) -> Self;

    spec fn spec_rotations_cos(k: int) -> Self;

    fn rotations_sin(k: usize) -> (r: Self)
        requires
            k < 6,
        ensures
            r == Self::spec_rotations_sin(k as int),
    ;

    fn rotations_cos(k: usize) -> (r: Self)
        requires
            k < 6,
        ensures
            r == Self::spec_rotations_cos(k as int),
    ;
}

impl HexTrig for Fx {
    open spec fn spec_rotations_sin(k: int) -> Fx {
        Fx { raw: spec_rot_sin_raw(k) }
    }

    open spec fn spec_rotations_cos(k: int) -> Fx {
        Fx { raw: spec_rot_cos_raw(k) }
    }

    fn rotations_sin(k: usize) -> (r: Fx)
        ensures
            r == <Fx as HexTrig>::spec_rotations_sin(k as int),
    {
        if k == 0 {
            Fx { raw: 0 }
        } else if k == 1 {
            Fx { raw: 56756 }
        } else if k == 2 {
            Fx { raw: 56756 }
        } else if k == 3 {
            Fx { raw: 0 }
        } else if k == 4 {
            Fx { raw: -56756 }
        } else {
            Fx { raw: -56756 }
        }
    }

    fn rotations_cos(k: usize) -> (r: Fx)
        ensures
            r == <Fx as HexTrig>::spec_rotations_cos(k as int),
    {
        if k == 0 {
            Fx { raw: 65536 }
        } else if k == 1 {
            Fx { raw: 32768 }
        } else if k == 2 {
            Fx { raw: -32768 }
        } else if k == 3 {
            Fx { raw: -65536 }
        } else if k == 4 {
            Fx { raw: -32768 }
        } else {
            Fx { raw: 32768 }
        }
    }
}

/// A unit coordinate: exactly minus one, zero, or one.
pub open spec fn spec_unit_coord(c: Fx) -> bool {
    c.raw == -65536i64 || c.raw == 0 || c.raw == 65536
}

#[verifier::rlimit(60)]
proof fn lemma_rotation_inverse_slot_0(v: crate::vector::RVec3)
    requires
        spec_unit_coord(v.x),
        spec_unit_coord(v.z),
    ensures
        v.spec_rotate_y(
            Fx { raw: spec_rot_sin_raw(0) },
            Fx { raw: spec_rot_cos_raw(0) },
        ).spec_rotate_y(
            Fx { raw: spec_rot_sin_raw(0) },
            Fx { raw: spec_rot_cos_raw(0) },
        ) == v,
{
    let x = v.x.raw;
    let z = v.z.raw;
    if x == -65536i64 && z == -65536i64 {
        assert(v.spec_rotate_y(Fx { raw: 0 }, Fx { raw: 65536 }).spec_rotate_y(Fx { raw: 0 }, Fx { raw: 65536 }) == v);
    }
    if x == -65536i64 && z == 0 {
        assert(v.spec_rotate_y(Fx { raw: 0 }, Fx { raw: 65536 }).spec_rotate_y(Fx { raw: 0 }, Fx { raw: 65536 }) == v);
    }
    if x == -65536i64 && z == 65536 {
        assert(v.spec_rotate_y(Fx { raw: 0 }, Fx { raw: 65536 }).spec_rotate_y(Fx { raw: 0 }, Fx { raw: 65536 }) == v);
    }
    if x == 0 && z == -65536i64 {
        assert(v.spec_rotate_y(Fx { raw: 0 }, Fx { raw: 65536 }).spec_rotate_y(Fx { raw: 0 }, Fx { raw: 65536 }) == v);
    }
    if x == 0 && z == 0 {
        assert(v.spec_rotate_y(Fx { raw: 0 }, Fx { raw: 65536 }).spec_rotate_y(Fx { raw: 0 }, Fx { raw: 65536 }) == v);
    }
    if x == 0 && z == 65536 {
        assert(v.spec_rotate_y(Fx { raw: 0 }, Fx { raw: 65536 }).spec_rotate_y(Fx { raw: 0 }, Fx { raw: 65536 }) == v);
    }
    if x == 65536 && z == -65536i64 {
        assert(v.spec_rotate_y(Fx { raw: 0 }, Fx { raw: 65536 }).spec_rotate_y(Fx { raw: 0 }, Fx { raw: 65536 }) == v);
    }
    if x == 65536 && z == 0 {
        assert(v.spec_rotate_y(Fx { raw: 0 }, Fx { raw: 65536 }).spec_rotate_y(Fx { raw: 0 }, Fx { raw: 65536 }) == v);
    }
    if x == 65536 && z == 65536 {
        assert(v.spec_rotate_y(Fx { raw: 0 }, Fx { raw: 65536 }).spec_rotate_y(Fx { raw: 0 }, Fx { raw: 65536 }) == v);
    }
}

#[verifier::rlimit(60)]
proof fn lemma_rotation_inverse_slot_1(v: crate::vector::RVec3)
    requires
        spec_unit_coord(v.x),
        spec_unit_coord(v.z),
    ensures
        v.spec_rotate_y(
            Fx { raw: spec_rot_sin_raw(1) },
            Fx { raw: spec_rot_cos_raw(1) },
        ).spec_rotate_y(
            Fx { raw: spec_rot_sin_raw(5) },
            Fx { raw: spec_rot_cos_raw(5) },
        ) == v,
{
    let x = v.x.raw;
    let z = v.z.raw;
    if x == -65536i64 && z == -65536i64 {
        assert(v.spec_rotate_y(Fx { raw: 56756 }, Fx { raw: 32768 }).spec_rotate_y(Fx { raw: -56756i64 }, Fx { raw: 32768 }) == v);
    }
    if x == -65536i64 && z == 0 {
        assert(v.spec_rotate_y(Fx { raw: 56756 }, Fx { raw: 32768 }).spec_rotate_y(Fx { raw: -56756i64 }, Fx { raw: 32768 }) == v);
    }
    if x == -65536i64 && z == 65536 {
        assert(v.spec_rotate_y(Fx { raw: 56756 }, Fx { raw: 32768 }).spec_rotate_y(Fx { raw: -56756i64 }, Fx { raw: 32768 }) == v);
    }
    if x == 0 && z == -65536i64 {
        assert(v.spec_rotate_y(Fx { raw: 56756 }, Fx { raw: 32768 }).spec_rotate_y(Fx { raw: -56756i64 }, Fx { raw: 32768 }) == v);
    }
    if x == 0 && z == 0 {
        assert(v.spec_rotate_y(Fx { raw: 56756 }, Fx { raw: 32768 }).spec_rotate_y(Fx { raw: -56756i64 }, Fx { raw: 32768 }) == v);
    }
    if x == 0 && z == 65536 {
        assert(v.spec_rotate_y(Fx { raw: 56756 }, Fx { raw: 32768 }).spec_rotate_y(Fx { raw: -56756i64 }, Fx { raw: 32768 }) == v);
    }
    if x == 65536 && z == -65536i64 {
        assert(v.spec_rotate_y(Fx { raw: 56756 }, Fx { raw: 32768 }).spec_rotate_y(Fx { raw: -56756i64 }, Fx { raw: 32768 }) == v);
    }
    if x == 65536 && z == 0 {
        assert(v.spec_rotate_y(Fx { raw: 56756 }, Fx { raw: 32768 }).spec_rotate_y(Fx { raw: -56756i64 }, Fx { raw: 32768 }) == v);
    }
    if x == 65536 && z == 65536 {
        assert(v.spec_rotate_y(Fx { raw: 56756 }, Fx { raw: 32768 }).spec_rotate_y(Fx { raw: -56756i64 }, Fx { raw: 32768 }) == v);
    }
}

#[verifier::rlimit(60)]
proof fn lemma_rotation_inverse_slot_2(v: crate::vector::RVec3)
    requires
        spec_unit_coord(v.x),
        spec_unit_coord(v.z),
    ensures
        v.spec_rotate_y(
            Fx { raw: spec_rot_sin_raw(2) },
            Fx { raw: spec_rot_cos_raw(2) },
        ).spec_rotate_y(
            Fx { raw: spec_rot_sin_raw(4) },
            Fx { raw: spec_rot_cos_raw(4) },
        ) == v,
{
    let x = v.x.raw;
    let z = v.z.raw;
    if x == -65536i64 && z == -65536i64 {
        assert(v.spec_rotate_y(Fx { raw: 56756 }, Fx { raw: -32768i64 }).spec_rotate_y(Fx { raw: -56756i64 }, Fx { raw: -32768i64 }) == v);
    }
    if x == -65536i64 && z == 0 {
        assert(v.spec_rotate_y(Fx { raw: 56756 }, Fx { raw: -32768i64 }).spec_rotate_y(Fx { raw: -56756i64 }, Fx { raw: -32768i64 }) == v);
    }
    if x == -65536i64 && z == 65536 {
        assert(v.spec_rotate_y(Fx { raw: 56756 }, Fx { raw: -32768i64 }).spec_rotate_y(Fx { raw: -56756i64 }, Fx { raw: -32768i64 }) == v);
    }
    if x == 0 && z == -65536i64 {
        assert(v.spec_rotate_y(Fx { raw: 56756 }, Fx { raw: -32768i64 }).spec_rotate_y(Fx { raw: -56756i64 }, Fx { raw: -32768i64 }) == v);
    }
    if x == 0 && z == 0 {
        assert(v.spec_rotate_y(Fx { raw: 56756 }, Fx { raw: -32768i64 }).spec_rotate_y(Fx { raw: -56756i64 }, Fx { raw: -32768i64 }) == v);
    }
    if x == 0 && z == 65536 {
        assert(v.spec_rotate_y(Fx { raw: 56756 }, Fx { raw: -32768i64 }).spec_rotate_y(Fx { raw: -56756i64 }, Fx { raw: -32768i64 }) == v);
    }
    if x == 65536 && z == -65536i64 {
        assert(v.spec_rotate_y(Fx { raw: 56756 }, Fx { raw: -32768i64 }).spec_rotate_y(Fx { raw: -56756i64 }, Fx { raw: -32768i64 }) == v);
    }
    if x == 65536 && z == 0 {
        assert(v.spec_rotate_y(Fx { raw: 56756 }, Fx { raw: -32768i64 }).spec_rotate_y(Fx { raw: -56756i64 }, Fx { raw: -32768i64 }) == v);
    }
    if x == 65536 && z == 65536 {
        assert(v.spec_rotate_y(Fx { raw: 56756 }, Fx { raw: -32768i64 }).spec_rotate_y(Fx { raw: -56756i64 }, Fx { raw: -32768i64 }) == v);
    }
}

#[verifier::rlimit(60)]
proof fn lemma_rotation_inverse_slot_3(v: crate::vector::RVec3)
    requires
        spec_unit_coord(v.x),
        spec_unit_coord(v.z),
    ensures
        v.spec_rotate_y(
            Fx { raw: spec_rot_sin_raw(3) },
            Fx { raw: spec_rot_cos_raw(3) },
        ).spec_rotate_y(
            Fx { raw: spec_rot_sin_raw(3) },
            Fx { raw: spec_rot_cos_raw(3) },
        ) == v,
{
    let x = v.x.raw;
    let z = v.z.raw;
    if x == -65536i64 && z == -65536i64 {
        assert(v.spec_rotate_y(Fx { raw: 0 }, Fx { raw: -65536i64 }).spec_rotate_y(Fx { raw: 0 }, Fx { raw: -65536i64 }) == v);
    }
    if x == -65536i64 && z == 0 {
        assert(v.spec_rotate_y(Fx { raw: 0 }, Fx { raw: -65536i64 }).spec_rotate_y(Fx { raw: 0 }, Fx { raw: -65536i64 }) == v);
    }
    if x == -65536i64 && z == 65536 {
        assert(v.spec_rotate_y(Fx { raw: 0 }, Fx { raw: -65536i64 }).spec_rotate_y(Fx { raw: 0 }, Fx { raw: -65536i64 }) == v);
    }
    if x == 0 && z == -65536i64 {
        assert(v.spec_rotate_y(Fx { raw: 0 }, Fx { raw: -65536i64 }).spec_rotate_y(Fx { raw: 0 }, Fx { raw: -65536i64 }) == v);
    }
    if x == 0 && z == 0 {
        assert(v.spec_rotate_y(Fx { raw: 0 }, Fx { raw: -65536i64 }).spec_rotate_y(Fx { raw: 0 }, Fx { raw: -65536i64 }) == v);
    }
    if x == 0 && z == 65536 {
        assert(v.spec_rotate_y(Fx { raw: 0 }, Fx { raw: -65536i64 }).spec_rotate_y(Fx { raw: 0 }, Fx { raw: -65536i64 }) == v);
    }
    if x == 65536 && z == -65536i64 {
        assert(v.spec_rotate_y(Fx { raw: 0 }, Fx { raw: -65536i64 }).spec_rotate_y(Fx { raw: 0 }, Fx { raw: -65536i64 }) == v);
    }
    if x == 65536 && z == 0 {
        assert(v.spec_rotate_y(Fx { raw: 0 }, Fx { raw: -65536i64 }).spec_rotate_y(Fx { raw: 0 }, Fx { raw: -65536i64 }) == v);
    }
    if x == 65536 && z == 65536 {
        assert(v.spec_rotate_y(Fx { raw: 0 }, Fx { raw: -65536i64 }).spec_rotate_y(Fx { raw: 0 }, Fx { raw: -65536i64 }) == v);
    }
}

#[verifier::rlimit(60)]
proof fn lemma_rotation_inverse_slot_4(v: crate::vector::RVec3)
    requires
        spec_unit_coord(v.x),
        spec_unit_coord(v.z),
    ensures
        v.spec_rotate_y(
            Fx { raw: spec_rot_sin_raw(4) },
            Fx { raw: spec_rot_cos_raw(4) },
        ).spec_rotate_y(
            Fx { raw: spec_rot_sin_raw(2) },
            Fx { raw: spec_rot_cos_raw(2) },
        ) == v,
{
    let x = v.x.raw;
    let z = v.z.raw;
    if x == -65536i64 && z == -65536i64 {
        assert(v.spec_rotate_y(Fx { raw: -56756i64 }, Fx { raw: -32768i64 }).spec_rotate_y(Fx { raw: 56756 }, Fx { raw: -32768i64 }) == v);
    }
    if x == -65536i64 && z == 0 {
        assert(v.spec_rotate_y(Fx { raw: -56756i64 }, Fx { raw: -32768i64 }).spec_rotate_y(Fx { raw: 56756 }, Fx { raw: -32768i64 }) == v);
    }
    if x == -65536i64 && z == 65536 {
        assert(v.spec_rotate_y(Fx { raw: -56756i64 }, Fx { raw: -32768i64 }).spec_rotate_y(Fx { raw: 56756 }, Fx { raw: -32768i64 }) == v);
    }
    if x == 0 && z == -65536i64 {
        assert(v.spec_rotate_y(Fx { raw: -56756i64 }, Fx { raw: -32768i64 }).spec_rotate_y(Fx { raw: 56756 }, Fx { raw: -32768i64 }) == v);
    }
    if x == 0 && z == 0 {
        assert(v.spec_rotate_y(Fx { raw: -56756i64 }, Fx { raw: -32768i64 }).spec_rotate_y(Fx { raw: 56756 }, Fx { raw: -32768i64 }) == v);
    }
    if x == 0 && z == 65536 {
        assert(v.spec_rotate_y(Fx { raw: -56756i64 }, Fx { raw: -32768i64 }).spec_rotate_y(Fx { raw: 56756 }, Fx { raw: -32768i64 }) == v);
    }
    if x == 65536 && z == -65536i64 {
        assert(v.spec_rotate_y(Fx { raw: -56756i64 }, Fx { raw: -32768i64 }).spec_rotate_y(Fx { raw: 56756 }, Fx { raw: -32768i64 }) == v);
    }
    if x == 65536 && z == 0 {
        assert(v.spec_rotate_y(Fx { raw: -56756i64 }, Fx { raw: -32768i64 }).spec_rotate_y(Fx { raw: 56756 }, Fx { raw: -32768i64 }) == v);
    }
    if x == 65536 && z == 65536 {
        assert(v.spec_rotate_y(Fx { raw: -56756i64 }, Fx { raw: -32768i64 }).spec_rotate_y(Fx { raw: 56756 }, Fx { raw: -32768i64 }) == v);
    }
}

#[verifier::rlimit(60)]
proof fn lemma_rotation_inverse_slot_5(v: crate::vector::RVec3)
    requires
        spec_unit_coord(v.x),
        spec_unit_coord(v.z),
    ensures
        v.spec_rotate_y(
            Fx { raw: spec_rot_sin_raw(5) },
            Fx { raw: spec_rot_cos_raw(5) },
        ).spec_rotate_y(
            Fx { raw: spec_rot_sin_raw(1) },
            Fx { raw: spec_rot_cos_raw(1) },
        ) == v,
{
    let x = v.x.raw;
    let z = v.z.raw;
    if x == -65536i64 && z == -65536i64 {
        assert(v.spec_rotate_y(Fx { raw: -56756i64 }, Fx { raw: 32768 }).spec_rotate_y(Fx { raw: 56756 }, Fx { raw: 32768 }) == v);
    }
    if x == -65536i64 && z == 0 {
        assert(v.spec_rotate_y(Fx { raw: -56756i64 }, Fx { raw: 32768 }).spec_rotate_y(Fx { raw: 56756 }, Fx { raw: 32768 }) == v);
    }
    if x == -65536i64 && z == 65536 {
        assert(v.spec_rotate_y(Fx { raw: -56756i64 }, Fx { raw: 32768 }).spec_rotate_y(Fx { raw: 56756 }, Fx { raw: 32768 }) == v);
    }
    if x == 0 && z == -65536i64 {
        assert(v.spec_rotate_y(Fx { raw: -56756i64 }, Fx { raw: 32768 }).spec_rotate_y(Fx { raw: 56756 }, Fx { raw: 32768 }) == v);
    }
    if x == 0 && z == 0 {
        assert(v.spec_rotate_y(Fx { raw: -56756i64 }, Fx { raw: 32768 }).spec_rotate_y(Fx { raw: 56756 }, Fx { raw: 32768 }) == v);
    }
    if x == 0 && z == 65536 {
        assert(v.spec_rotate_y(Fx { raw: -56756i64 }, Fx { raw: 32768 }).spec_rotate_y(Fx { raw: 56756 }, Fx { raw: 32768 }) == v);
    }
    if x == 65536 && z == -65536i64 {
        assert(v.spec_rotate_y(Fx { raw: -56756i64 }, Fx { raw: 32768 }).spec_rotate_y(Fx { raw: 56756 }, Fx { raw: 32768 }) == v);
    }
    if x == 65536 && z == 0 {
        assert(v.spec_rotate_y(Fx { raw: -56756i64 }, Fx { raw: 32768 }).spec_rotate_y(Fx { raw: 56756 }, Fx { raw: 32768 }) == v);
    }
    if x == 65536 && z == 65536 {
        assert(v.spec_rotate_y(Fx { raw: -56756i64 }, Fx { raw: 32768 }).spec_rotate_y(Fx { raw: 56756 }, Fx { raw: 32768 }) == v);
    }
}

/// Rotating by rotation-table slot `k` and then by slot `(6 - k) % 6`
/// returns a unit vector to its original position, for every slot.
pub proof fn lemma_rotation_inverse(v: crate::vector::RVec3, k: int)
    requires
        0 <= k < 6,
        spec_unit_coord(v.x),
        spec_unit_coord(v.z),
    ensures
        v.spec_rotate_y(
            Fx { raw: spec_rot_sin_raw(k) },
            Fx { raw: spec_rot_cos_raw(k) },
        ).spec_rotate_y(
            Fx { raw: spec_rot_sin_raw((6 - k) % 6) },
            Fx { raw: spec_rot_cos_raw((6 - k) % 6) },
        ) == v,
{
    assert((6 - k) % 6 == if k == 0 { 0int } else { 6 - k });
    if k == 0 {
        lemma_rotation_inverse_slot_0(v);
    } else if k == 1 {
        lemma_rotation_inverse_slot_1(v);
    } else if k == 2 {
        lemma_rotation_inverse_slot_2(v);
    } else if k == 3 {
        lemma_rotation_inverse_slot_3(v);
    } else if k == 4 {
        lemma_rotation_inverse_slot_4(v);
    } else {
        lemma_rotation_inverse_slot_5(v);
    }
}

} // verus!
