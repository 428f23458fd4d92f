//! The mapping from mesh names to immutable mesh templates.
//!
//! This is both the parser's output and the store that tile assembly
//! resolves variant names against.  Names are unique; inserting under an
//! existing name replaces that entry in place.

use crate::text::str_eq;
use crate::vertex::Vertex;
use crate::wave_mesh::spec_coords_bounded;
use crate::wave_mesh::spec_indices_valid;
use crate::wave_mesh::MeshView;
use crate::wave_mesh::WaveMesh;
use vstd::prelude::*;
use vstd::string::StrSliceExecFns;

verus! {

/// Largest coordinate magnitude a library mesh may carry; parsed templates
/// always stay within it.
pub const LIB_COORD_MAX: i64 = 0x8000_0000;

#[derive(Debug)]
pub struct MeshLibrary {
    entries: Vec<(String, WaveMesh)>,
}

/// Position of `name` in the library, scanning from `i`.
pub open spec fn spec_lib_index(lib: Seq<(Seq<char>, MeshView)>, name: Seq<char>, i: int) -> Option<
    int,
>
    decreases lib.len() - i,
{
    if i < 0 || i >= lib.len() {
        None
    } else if lib[i].0 == name {
        Some(i)
    } else {
        spec_lib_index(lib, name, i + 1)
    }
}

/// The mesh registered under `name`, if any.
pub open spec fn spec_lib_get(lib: Seq<(Seq<char>, MeshView)>, name: Seq<char>) -> Option<MeshView> {
    match spec_lib_index(lib, name, 0) {
        Some(i) => Some(lib[i].1),
        None => None,
    }
}

/// Register `m` under `name`: replace the existing entry in place, or append.
pub open spec fn spec_lib_insert(
    lib: Seq<(Seq<char>, MeshView)>,
    name: Seq<char>,
    m: MeshView,
) -> Seq<(Seq<char>, MeshView)> {
    match spec_lib_index(lib, name, 0) {
        Some(i) => lib.update(i, (name, m)),
        None => lib.push((name, m)),
    }
}

/// Library invariant: names are unique, and every mesh is structurally
/// well formed with template-sized coordinates.
pub open spec fn spec_lib_wf(lib: Seq<(Seq<char>, MeshView)>) -> bool {
    &&& forall|i: int, j: int|
        0 <= i < j < lib.len() ==> (#[trigger] lib[i]).0 != (#[trigger] lib[j]).0
    &&& forall|i: int|
        0 <= i < lib.len() ==> {
            &&& spec_indices_valid((#[trigger] lib[i]).1.vertexs, lib[i].1.indices)
            &&& spec_coords_bounded(lib[i].1.vertexs, LIB_COORD_MAX as int)
        }
}

impl View for MeshLibrary {
    type V = Seq<(Seq<char>, MeshView)>;

    closed spec fn view(&self) -> Seq<(Seq<char>, MeshView)> {
        self.entries@.map(|i: int, e: (String, WaveMesh)| (e.0@, e.1@))
    }
}

impl MeshLibrary {
    pub open spec fn wf(&self) -> bool {
        spec_lib_wf(self@)
    }

    pub fn new() -> (r: MeshLibrary)
        ensures
            r@ == Seq::<(Seq<char>, MeshView)>::empty(),
            r.wf(),
    {
        let r = MeshLibrary { entries: Vec::new() };
        proof {
            assert(r@ =~= Seq::<(Seq<char>, MeshView)>::empty());
        }
        r
    }

    pub fn len(&self) -> (r: usize)
        ensures
            r == self@.len(),
    {
        self.entries.len()
    }

    /// Position of `name` among the entries, if present.
    fn index_of(&self, name: &str) -> (r: Option<usize>)
        ensures
            match r {
                Some(i) => spec_lib_index(self@, name@, 0) == Some(i as int) && i < self@.len(),
                None => spec_lib_index(self@, name@, 0) is None,
            },
    {
        let n = self.entries.len();
        let mut i: usize = 0;
        while i < n
            invariant
                n == self.entries@.len(),
                self@.len() == n,
                i <= n,
                spec_lib_index(self@, name@, 0) == spec_lib_index(self@, name@, i as int),
            decreases n - i,
        {
            if str_eq(self.entries[i].0.as_str(), name) {
                return Some(i);
            }
            i = i + 1;
        }
        None
    }

    /// The mesh registered under `name`, if any.
    pub fn get(&self, name: &str) -> (r: Option<&WaveMesh>)
        ensures
            match r {
                Some(m) => spec_lib_get(self@, name@) == Some(m@),
                None => spec_lib_get(self@, name@) is None,
            },
    {
        match self.index_of(name) {
            Some(i) => Some(&self.entries[i].1),
            None => None,
        }
    }

    /// Register `mesh` under `name`, replacing any existing entry in place.
    pub fn insert(&mut self, name: String, mesh: WaveMesh)
        requires
            old(self).wf(),
            spec_indices_valid(mesh@.vertexs, mesh@.indices),
            spec_coords_bounded(mesh@.vertexs, LIB_COORD_MAX as int),
        ensures
            final(self)@ == spec_lib_insert(old(self)@, name@, mesh@),
            final(self).wf(),
    {
        let ghost pre = self@;
        match self.index_of(name.as_str()) {
            Some(i) => {
                self.entries.remove(i);
                self.entries.insert(i, (name, mesh));
                proof {
                    assert(self@ =~= spec_lib_insert(pre, name@, mesh@));
                    lemma_lib_index_found(pre, name@, 0);
                    assert forall|a: int, b: int| 0 <= a < b < self@.len() implies (
                    #[trigger] self@[a]).0 != (#[trigger] self@[b]).0 by {
                        assert(pre[a].0 != pre[b].0);
                    }
                }
            },
            None => {
                self.entries.push((name, mesh));
                proof {
                    assert(self@ =~= spec_lib_insert(pre, name@, mesh@));
                    lemma_lib_index_none(pre, name@, 0);
                    assert forall|a: int, b: int| 0 <= a < b < self@.len() implies (
                    #[trigger] self@[a]).0 != (#[trigger] self@[b]).0 by {
                        if b < pre.len() {
                            assert(pre[a].0 != pre[b].0);
                        } else {
                            assert(pre[a].0 != name@);
                        }
                    }
                }
            },
        }
    }
}

/// A found position carries the searched name.
pub proof fn lemma_lib_index_found(lib: Seq<(Seq<char>, MeshView)>, name: Seq<char>, i: int)
    requires
        0 <= i,
        spec_lib_index(lib, name, i) is Some,
    ensures
        ({
            let j = spec_lib_index(lib, name, i).unwrap();
            &&& i <= j < lib.len()
            &&& lib[j].0 == name
        }),
    decreases lib.len() - i,
{
    if i < lib.len() && lib[i].0 != name {
        lemma_lib_index_found(lib, name, i + 1);
    }
}

/// A mesh found in a well-formed library is itself well formed, carries
/// template-sized coordinates, and is one of the library's entries.
pub proof fn lemma_lib_get_props(lib: Seq<(Seq<char>, MeshView)>, name: Seq<char>)
    requires
        spec_lib_wf(lib),
        spec_lib_get(lib, name) is Some,
    ensures
        ({
            let m = spec_lib_get(lib, name).unwrap();
            &&& spec_indices_valid(m.vertexs, m.indices)
            &&& spec_coords_bounded(m.vertexs, LIB_COORD_MAX as int)
            &&& exists|i: int| 0 <= i < lib.len() && (#[trigger] lib[i]).1 == m
        }),
{
    lemma_lib_index_found(lib, name, 0);
    let j = spec_lib_index(lib, name, 0).unwrap();
    assert(lib[j].1 == spec_lib_get(lib, name).unwrap());
}

/// A failed search means no entry carries the name.
pub proof fn lemma_lib_index_none(lib: Seq<(Seq<char>, MeshView)>, name: Seq<char>, i: int)
    requires
        0 <= i,
        spec_lib_index(lib, name, i) is None,
    ensures
        forall|k: int| i <= k < lib.len() ==> (#[trigger] lib[k]).0 != name,
    decreases lib.len() - i,
{
    if i < lib.len() {
        lemma_lib_index_none(lib, name, i + 1);
    }
}

} // verus!
