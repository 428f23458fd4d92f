//! A mesh vertex: an exact position plus a palette cell selector.
//!
//! Equality is bit-exact on both fields; there is no epsilon anywhere, which
//! is what makes vertex deduplication a well-defined operation.

use crate::vector::RVec3;
use vstd::prelude::*;

verus! {

#[derive(Clone, Copy, PartialEq, Eq, Structural, Hash, Debug)]
pub struct Vertex {
    pub position: RVec3,
    /// Palette index selecting one cell of a 16 x 16 UV atlas.
    pub uv: u8,
}

impl Vertex {
    pub fn new(position: RVec3, uv: u8) -> (r: Vertex)
        ensures
            r == (Vertex { position, uv }),
    {
        Vertex { position, uv }
    }
}

/// The atlas cell a palette index selects: column `uv % 16`, row `uv / 16`.
/// Scaling these two integers into texture space is an export concern and
/// happens outside this crate.
pub fn palette_cell(uv: u8) -> (r: (u8, u8))
    ensures
        r.0 == uv % 16,
        r.1 == uv / 16,
{
    (uv % 16, uv / 16)
}

} // verus!
