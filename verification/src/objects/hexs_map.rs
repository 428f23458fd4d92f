//! The hex tile types: an isolated tile, an edge-matching connector tile,
//! and a procedurally decorated tile.

pub mod desert;
pub mod river;
pub mod sand;

use crate::errors::BakeError;
use vstd::prelude::*;

verus! {

/// Abstract bake failure, mirrored by the exec `BakeError` values:
/// the variant name and tile-type name involved.
pub enum BakeFail {
    NotSet(Seq<char>, Seq<char>),
    NotFound(Seq<char>, Seq<char>),
}

/// The exec error value carries exactly the abstract failure.
pub open spec fn bake_err_matches(e: BakeError, s: BakeFail) -> bool {
    match (e, s) {
        (BakeError::MeshNotSet { mesh, obj }, BakeFail::NotSet(sm, so)) => mesh@ == sm && obj@
            == so,
        (BakeError::MeshNotFound { mesh, obj }, BakeFail::NotFound(sm, so)) => mesh@ == sm && obj@
            == so,
        _ => false,
    }
}

/// Per-template vertex-count cap assumed by tile assembly, so that a whole
/// tile's bakes stay within 32-bit vertex ids.
pub open spec fn spec_lib_meshes_small(lib: Seq<(Seq<char>, crate::wave_mesh::MeshView)>) -> bool {
    forall|i: int|
        0 <= i < lib.len() ==> (#[trigger] lib[i]).1.vertexs.len() <= 0x100_0000
}

} // verus!
