//! Error taxonomy.
//!
//! Parse errors are terminal for the whole template; bake errors are terminal
//! for the specific bake call and indicate an authoring or asset-loading
//! problem, never a transient condition.

use vstd::prelude::*;

verus! {

/// A tile-assembly failure.
///
/// `MeshNotSet` is an authoring bug: the tile template's category-to-mesh
/// mapping lacks an entry for a required variant.  `MeshNotFound` is a
/// data-loading failure: the mapping has an entry but the referenced mesh
/// could not be obtained from the mesh library.
#[derive(Clone, Copy, Debug)]
pub enum BakeError {
    MeshNotFound { mesh: &'static str, obj: &'static str },
    MeshNotSet { mesh: &'static str, obj: &'static str },
}

/// A mesh-template parse failure, terminal for the whole parse call.
#[derive(Debug)]
pub enum ParseObjError {
    /// The input finished without a single named object.
    NoMeshs,
    /// An `o` directive without a name, on the given 1-based line.
    NoName(usize),
    /// An unrecognised leading token, with its text and 1-based line.
    UnknownSymbol(String, usize),
    /// A directive missing an expected field on the given 1-based line.
    ExpectedSymbol { expect: &'static str, line: usize },
    /// A field that should have held an integer did not parse as one.
    FailedToParseInt(usize),
    /// A named field failed to parse, with the field name and 1-based line.
    FailedToParse(&'static str, usize),
    /// A face referenced a position index of zero or one past the positions
    /// seen so far, on the given 1-based line.
    FaceIndexOutOfRange(usize, usize),
}

} // verus!
