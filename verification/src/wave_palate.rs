//! Palette remapping: swap a vertex's palette index for another through a
//! lookup table, leaving unmapped indices untouched.

use vstd::prelude::*;

verus! {

/// A palette: something that can rewrite a palette index in place.
pub trait WavePalate {
    /// What the palette rewrites `val` to.
    spec fn spec_apply(&self, val: u8) -> u8;

    fn apply(&self, val: &mut u8)
        ensures
            *final(val) == self.spec_apply(*old(val)),
    ;
}

/// A lookup table indexed by the palette index; indices past the table's
/// end are kept unchanged.
impl WavePalate for Vec<u8> {
    open spec fn spec_apply(&self, val: u8) -> u8 {
        if (val as int) < self@.len() {
            self@[val as int]
        } else {
            val
        }
    }

    fn apply(&self, val: &mut u8) {
        if (*val as usize) < self.len() {
            *val = self[*val as usize];
        }
    }
}

} // verus!
