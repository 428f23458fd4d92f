//! The mesh accumulation buffer.
//!
//! One builder collects many mesh fragments into a single combined mesh.
//! `bake` merges a fragment with cross-call vertex deduplication, so shared
//! borders fuse seamlessly; `add` merges without any deduplication, for
//! self-contained props that must never fuse with their surroundings.

use crate::vector::RVec3;
use crate::vertex::Vertex;
use crate::wave_mesh::spec_translate_vertex;
use crate::wave_mesh::WaveMesh;
use vstd::prelude::*;

verus! {

/// The abstract state of a builder: the accumulated vertices and indices,
/// plus the registry of vertices eligible for deduplication (only `bake`
/// feeds it).
#[verifier::ext_equal]
pub struct BuilderView {
    pub vertexs: Seq<Vertex>,
    pub indices: Seq<u32>,
    pub map: Seq<(Vertex, u32)>,
}

pub struct WaveBuilder {
    vertexs: Vec<Vertex>,
    indices: Vec<u32>,
    map: Vec<(Vertex, u32)>,
}

/// First registry entry for `v`, scanning from position `i`.
pub open spec fn spec_find_from(map: Seq<(Vertex, u32)>, v: Vertex, i: int) -> Option<u32>
    decreases map.len() - i,
{
    if i < 0 || i >= map.len() {
        None
    } else if map[i].0 == v {
        Some(map[i].1)
    } else {
        spec_find_from(map, v, i + 1)
    }
}

/// The deduplicating insertion of one already-translated vertex: reuse the
/// registered id when the vertex is known, otherwise append and register it.
pub open spec fn spec_bake_one(bv: BuilderView, tv: Vertex) -> (BuilderView, u32) {
    match spec_find_from(bv.map, tv, 0) {
        Some(id) => (bv, id),
        None => {
            let id = bv.vertexs.len() as u32;
            (
                BuilderView {
                    vertexs: bv.vertexs.push(tv),
                    indices: bv.indices,
                    map: bv.map.push((tv, id)),
                },
                id,
            )
        },
    }
}

/// Deduplicating insertion of the first `n` vertices of `vs`, each translated
/// by `off`; yields the new state and the per-call id translation table.
pub open spec fn spec_bake_verts(bv: BuilderView, vs: Seq<Vertex>, off: RVec3, n: int) -> (
    BuilderView,
    Seq<u32>,
)
    decreases n,
{
    if n <= 0 {
        (bv, Seq::<u32>::empty())
    } else {
        let (bv1, table) = spec_bake_verts(bv, vs, off, n - 1);
        let (bv2, id) = spec_bake_one(bv1, spec_translate_vertex(vs[n - 1], off));
        (bv2, table.push(id))
    }
}

/// The full effect of `bake`: insert every vertex with deduplication, then
/// append the fragment's triangle indices remapped through the translation
/// table.
pub open spec fn spec_bake(bv: BuilderView, vs: Seq<Vertex>, is: Seq<u32>, off: RVec3) -> BuilderView {
    let (bv1, table) = spec_bake_verts(bv, vs, off, vs.len() as int);
    BuilderView {
        vertexs: bv1.vertexs,
        indices: bv1.indices + is.map(|j: int, k: u32| table[k as int]),
        map: bv1.map,
    }
}

/// The full effect of `add`: append every vertex translated by `off` (no
/// deduplication, registry untouched) and the indices shifted past the
/// previously accumulated vertices.
pub open spec fn spec_add(bv: BuilderView, vs: Seq<Vertex>, is: Seq<u32>, off: RVec3) -> BuilderView {
    BuilderView {
        vertexs: bv.vertexs + vs.map(|j: int, v: Vertex| spec_translate_vertex(v, off)),
        indices: bv.indices + is.map(|j: int, k: u32| (k + bv.vertexs.len()) as u32),
        map: bv.map,
    }
}

impl View for WaveBuilder {
    type V = BuilderView;

    closed spec fn view(&self) -> BuilderView {
        BuilderView { vertexs: self.vertexs@, indices: self.indices@, map: self.map@ }
    }
}

impl BuilderView {
    /// Builder invariant: every accumulated index references an accumulated
    /// vertex, and the registry is an injective map into the vertex list.
    pub open spec fn wf(self) -> bool {
        &&& forall|i: int| 0 <= i < self.indices.len() ==> (self.indices[i] as int)
            < self.vertexs.len()
        &&& forall|i: int|
            0 <= i < self.map.len() ==> {
                &&& (#[trigger] self.map[i]).1 < self.vertexs.len()
                &&& self.vertexs[self.map[i].1 as int] == self.map[i].0
            }
        &&& forall|i: int, j: int|
            0 <= i < j < self.map.len() ==> (#[trigger] self.map[i]).0 != (
            #[trigger] self.map[j]).0
    }
}

impl WaveBuilder {
    pub fn new() -> (r: WaveBuilder)
        ensures
            r@.vertexs == Seq::<Vertex>::empty(),
            r@.indices == Seq::<u32>::empty(),
            r@.map == Seq::<(Vertex, u32)>::empty(),
            r@.wf(),
    {
        WaveBuilder { vertexs: Vec::new(), indices: Vec::new(), map: Vec::new() }
    }

    /// Empty the accumulated mesh and the dedup registry, making the builder
    /// ready for reuse in a fresh build session.
    pub fn clear(&mut self)
        ensures
            final(self)@.vertexs == Seq::<Vertex>::empty(),
            final(self)@.indices == Seq::<u32>::empty(),
            final(self)@.map == Seq::<(Vertex, u32)>::empty(),
            final(self)@.wf(),
    {
        self.indices.clear();
        self.vertexs.clear();
        self.map.clear();
    }

    pub fn vertex_len(&self) -> (r: usize)
        ensures
            r == self@.vertexs.len(),
    {
        self.vertexs.len()
    }

    pub fn indices_len(&self) -> (r: usize)
        ensures
            r == self@.indices.len(),
    {
        self.indices.len()
    }

    /// The accumulated fixed-point vertex data and index list, as parallel
    /// arrays.  Conversion to floating-point render buffers is an export
    /// concern layered outside this crate.
    pub fn extract_fixed(&self) -> (r: (Vec<Vertex>, Vec<u32>))
        ensures
            r.0@ == self@.vertexs,
            r.1@ == self@.indices,
    {
        let vertexs = self.vertexs.clone();
        let indices = self.indices.clone();
        proof {
            assert(vertexs@ =~= self.vertexs@);
            assert(indices@ =~= self.indices@);
        }
        (vertexs, indices)
    }

    /// First registered id for `v`, if any.
    fn find_in_map(&self, v: Vertex) -> (r: Option<u32>)
        ensures
            r == spec_find_from(self@.map, v, 0),
    {
        let n: usize = self.map.len();
        let mut i: usize = 0;
        while i < n
            invariant
                n == self.map@.len(),
                i <= n,
                spec_find_from(self@.map, v, 0) == spec_find_from(self@.map, v, i as int),
            decreases n - i,
        {
            let (mv, id) = self.map[i];
            if mv == v {
                return Some(id);
            }
            i = i + 1;
        }
        None
    }

    /// Merge `mesh`, translated by `offset`, into the accumulated mesh with
    /// cross-call vertex deduplication.  Use this for geometry that must fuse
    /// seamlessly with neighbouring geometry.
    pub fn bake(&mut self, offset: RVec3, mesh: &WaveMesh) -> (r: Result<(), crate::errors::BakeError>)
        requires
            old(self)@.wf(),
            mesh.wf(),
            mesh.bounded(crate::wave_mesh::FX_TRANSLATE_MAX as int),
            offset.bounded(crate::wave_mesh::FX_TRANSLATE_MAX as int),
            old(self)@.vertexs.len() + mesh.vertexs@.len() <= u32::MAX,
        ensures
            r is Ok,
            final(self)@ == spec_bake(old(self)@, mesh.vertexs@, mesh.indices@, offset),
            final(self)@.wf(),
    {
        let ghost bv0 = self@;
        let n: usize = mesh.vertexs.len();
        let mut table: Vec<u32> = Vec::new();
        let mut i: usize = 0;
        while i < n
            invariant
                old(self)@ == bv0,
                bv0.wf(),
                n == mesh.vertexs@.len(),
                mesh.bounded(crate::wave_mesh::FX_TRANSLATE_MAX as int),
                offset.bounded(crate::wave_mesh::FX_TRANSLATE_MAX as int),
                bv0.vertexs.len() + n <= u32::MAX,
                i <= n,
                (self@, table@) == spec_bake_verts(bv0, mesh.vertexs@, offset, i as int),
                table@.len() == i,
                self@.wf(),
                self@.indices == bv0.indices,
                self@.vertexs.len() <= bv0.vertexs.len() + i,
            decreases n - i,
        {
            let ghost pre = self@;
            let v = mesh.vertexs[i];
            let tv = Vertex { position: v.position.add(offset), uv: v.uv };
            assert(tv == spec_translate_vertex(mesh.vertexs@[i as int], offset));
            let id: u32 = match self.find_in_map(tv) {
                Some(id) => id,
                None => {
                    proof {
                        lemma_find_from_none(self@.map, tv, 0);
                    }
                    let id = self.vertexs.len() as u32;
                    self.vertexs.push(tv);
                    self.map.push((tv, id));
                    proof {
                        assert forall|a: int, b: int| 0 <= a < b < self@.map.len() implies (
                        #[trigger] self@.map[a]).0 != (#[trigger] self@.map[b]).0 by {
                            if b < pre.map.len() {
                                assert(pre.map[a].0 != pre.map[b].0);
                            } else {
                                assert(self@.map[b].0 == tv);
                                assert(pre.map[a].0 != tv);
                            }
                        }
                    }
                    id
                },
            };
            table.push(id);
            i = i + 1;
            proof {
                assert((self@, table@) =~= spec_bake_verts(bv0, mesh.vertexs@, offset, i as int));
            }
        }
        // remap the fragment's triangle indices through the translation table
        let m: usize = mesh.indices.len();
        let ghost bv1 = self@;
        let ghost table1 = table@;
        let mut j: usize = 0;
        let mut new_indices: Vec<u32> = Vec::new();
        while j < m
            invariant
                m == mesh.indices@.len(),
                spec_indices_valid_for(mesh.indices@, table1.len() as int),
                table@ == table1,
                j <= m,
                new_indices@ == mesh.indices@.take(j as int).map(
                    |k: int, ix: u32| table1[ix as int],
                ),
            decreases m - j,
        {
            let ix = mesh.indices[j];
            new_indices.push(table[ix as usize]);
            j = j + 1;
            proof {
                assert(mesh.indices@.take(j as int).drop_last() =~= mesh.indices@.take(
                    j as int - 1,
                ));
                assert(new_indices@ =~= mesh.indices@.take(j as int).map(
                    |k: int, ix: u32| table1[ix as int],
                ));
            }
        }
        let mut k: usize = 0;
        let nn: usize = new_indices.len();
        while k < nn
            invariant
                nn == new_indices@.len(),
                k <= nn,
                self@.vertexs == bv1.vertexs,
                self@.map == bv1.map,
                self@.indices == bv1.indices + new_indices@.take(k as int),
            decreases nn - k,
        {
            self.indices.push(new_indices[k]);
            k = k + 1;
            proof {
                assert(new_indices@.take(k as int).drop_last() =~= new_indices@.take(k as int - 1));
                assert(self@.indices =~= bv1.indices + new_indices@.take(k as int));
            }
        }
        proof {
            assert(mesh.indices@.take(m as int) =~= mesh.indices@);
            assert(new_indices@.take(nn as int) =~= new_indices@);
            lemma_bake_verts_wf(bv0, mesh.vertexs@, offset, n as int);
            assert(self@ =~= spec_bake(bv0, mesh.vertexs@, mesh.indices@, offset));
        }
        Ok(())
    }

    /// Merge `mesh`, translated by `offset`, into the accumulated mesh with
    /// no deduplication at all: every fragment vertex becomes a fresh
    /// combined-mesh vertex.  Use this for discrete props that must never
    /// fuse with surrounding terrain.
    pub fn add(&mut self, offset: RVec3, mesh: &WaveMesh) -> (r: Result<(), crate::errors::BakeError>)
        requires
            old(self)@.wf(),
            mesh.wf(),
            mesh.bounded(crate::wave_mesh::FX_TRANSLATE_MAX as int),
            offset.bounded(crate::wave_mesh::FX_TRANSLATE_MAX as int),
            old(self)@.vertexs.len() + mesh.vertexs@.len() <= u32::MAX,
        ensures
            r is Ok,
            final(self)@ == spec_add(old(self)@, mesh.vertexs@, mesh.indices@, offset),
            final(self)@.wf(),
    {
        let ghost bv0 = self@;
        let indices_offset: u32 = self.vertexs.len() as u32;
        let n: usize = mesh.vertexs.len();
        let mut i: usize = 0;
        while i < n
            invariant
                n == mesh.vertexs@.len(),
                mesh.bounded(crate::wave_mesh::FX_TRANSLATE_MAX as int),
                offset.bounded(crate::wave_mesh::FX_TRANSLATE_MAX as int),
                i <= n,
                self@.indices == bv0.indices,
                self@.map == bv0.map,
                self@.vertexs == bv0.vertexs + mesh.vertexs@.take(i as int).map(
                    |j: int, v: Vertex| spec_translate_vertex(v, offset),
                ),
            decreases n - i,
        {
            let v = mesh.vertexs[i];
            let tv = Vertex { position: v.position.add(offset), uv: v.uv };
            self.vertexs.push(tv);
            i = i + 1;
            proof {
                assert(mesh.vertexs@.take(i as int).drop_last() =~= mesh.vertexs@.take(
                    i as int - 1,
                ));
                assert(self@.vertexs =~= bv0.vertexs + mesh.vertexs@.take(i as int).map(
                    |j: int, v: Vertex| spec_translate_vertex(v, offset),
                ));
            }
        }
        let m: usize = mesh.indices.len();
        let mut j: usize = 0;
        while j < m
            invariant
                m == mesh.indices@.len(),
                spec_indices_valid_for(mesh.indices@, n as int),
                n == mesh.vertexs@.len(),
                indices_offset == bv0.vertexs.len(),
                bv0.vertexs.len() + n <= u32::MAX,
                j <= m,
                self@.vertexs == bv0.vertexs + mesh.vertexs@.map(
                    |jj: int, v: Vertex| spec_translate_vertex(v, offset),
                ),
                self@.map == bv0.map,
                self@.indices == bv0.indices + mesh.indices@.take(j as int).map(
                    |k: int, ix: u32| (ix + bv0.vertexs.len()) as u32,
                ),
            decreases m - j,
        {
            let ix = mesh.indices[j];
            self.indices.push(ix + indices_offset);
            j = j + 1;
            proof {
                assert(mesh.indices@.take(j as int).drop_last() =~= mesh.indices@.take(
                    j as int - 1,
                ));
                assert(self@.indices =~= bv0.indices + mesh.indices@.take(j as int).map(
                    |k: int, ix: u32| (ix + bv0.vertexs.len()) as u32,
                ));
            }
        }
        proof {
            assert(mesh.vertexs@.take(n as int) =~= mesh.vertexs@);
            assert(mesh.indices@.take(m as int) =~= mesh.indices@);
            assert(self@ =~= spec_add(bv0, mesh.vertexs@, mesh.indices@, offset));
        }
        Ok(())
    }
}

/// Every index in `is` stays below `n`.
pub open spec fn spec_indices_valid_for(is: Seq<u32>, n: int) -> bool {
    forall|i: int| 0 <= i < is.len() ==> (is[i] as int) < n
}

/// Deduplicating insertion preserves the builder invariant, never shrinks the
/// registry or the vertex list, grows vertices by at most one per inserted
/// vertex, and leaves the accumulated indices untouched; every id handed back
/// in the table references an accumulated vertex.
pub proof fn lemma_bake_verts_wf(bv: BuilderView, vs: Seq<Vertex>, off: RVec3, n: int)
    requires
        bv.wf(),
        n <= vs.len(),
        bv.vertexs.len() + n <= u32::MAX,
    ensures
        ({
            let (bv1, table) = spec_bake_verts(bv, vs, off, n);
            &&& bv1.wf()
            &&& bv1.indices == bv.indices
            &&& bv1.vertexs.len() <= bv.vertexs.len() + if n >= 0 {
                n
            } else {
                0
            }
            &&& bv.vertexs.len() <= bv1.vertexs.len()
            &&& table.len() == if n >= 0 {
                n
            } else {
                0
            }
            &&& forall|i: int| 0 <= i < table.len() ==> (table[i] as int) < bv1.vertexs.len()
            &&& forall|i: int| 0 <= i < bv.map.len() ==> bv1.map[i] == bv.map[i]
            &&& bv.map.len() <= bv1.map.len()
        }),
    decreases n,
{
    if n > 0 {
        lemma_bake_verts_wf(bv, vs, off, n - 1);
        let (bv1, table) = spec_bake_verts(bv, vs, off, n - 1);
        let tv = spec_translate_vertex(vs[n - 1], off);
        match spec_find_from(bv1.map, tv, 0) {
            Some(id) => {
                lemma_find_from_in_map(bv1.map, tv, 0);
            },
            None => {
                lemma_find_from_none(bv1.map, tv, 0);
            },
        }
    }
}

/// A found id comes from some registry entry.
pub proof fn lemma_find_from_in_map(map: Seq<(Vertex, u32)>, v: Vertex, i: int)
    requires
        0 <= i,
        spec_find_from(map, v, i) is Some,
    ensures
        exists|k: int|
            i <= k < map.len() && #[trigger] map[k] == (v, spec_find_from(map, v, i).unwrap()),
    decreases map.len() - i,
{
    if i < map.len() {
        if map[i].0 == v {
            assert(map[i] == (v, spec_find_from(map, v, i).unwrap()));
        } else {
            lemma_find_from_in_map(map, v, i + 1);
        }
    }
}

/// A failed registry search means no entry carries the vertex.
pub proof fn lemma_find_from_none(map: Seq<(Vertex, u32)>, v: Vertex, i: int)
    requires
        0 <= i,
        spec_find_from(map, v, i) is None,
    ensures
        forall|k: int| i <= k < map.len() ==> (#[trigger] map[k]).0 != v,
    decreases map.len() - i,
{
    if i < map.len() {
        lemma_find_from_none(map, v, i + 1);
    }
}

/// Extending the registry never loses an existing entry, and a fresh entry
/// becomes findable when nothing earlier matched.
proof fn lemma_find_from_push(map: Seq<(Vertex, u32)>, e: (Vertex, u32), v: Vertex, i: int)
    requires
        0 <= i <= map.len(),
    ensures
        spec_find_from(map, v, i) is Some ==> spec_find_from(map.push(e), v, i) == spec_find_from(
            map,
            v,
            i,
        ),
        spec_find_from(map, v, i) is None && e.0 == v ==> spec_find_from(map.push(e), v, i)
            == Some(e.1),
    decreases map.len() - i,
{
    if i < map.len() {
        lemma_find_from_push(map, e, v, i + 1);
    }
}

/// After deduplicating insertion of the first `n` vertices, each of their
/// translated values is findable in the registry.
proof fn lemma_bake_verts_registers(bv: BuilderView, vs: Seq<Vertex>, off: RVec3, n: int)
    requires
        n <= vs.len(),
    ensures
        ({
            let (bv1, table) = spec_bake_verts(bv, vs, off, n);
            forall|j: int|
                0 <= j < n ==> spec_find_from(
                    bv1.map,
                    spec_translate_vertex(vs[j], off),
                    0,
                ) is Some
        }),
    decreases n,
{
    if n > 0 {
        lemma_bake_verts_registers(bv, vs, off, n - 1);
        let (bvp, tp) = spec_bake_verts(bv, vs, off, n - 1);
        let tv = spec_translate_vertex(vs[n - 1], off);
        let (bv1, table) = spec_bake_verts(bv, vs, off, n);
        match spec_find_from(bvp.map, tv, 0) {
            Some(_) => {},
            None => {
                let e = (tv, bvp.vertexs.len() as u32);
                assert forall|j: int|
                    0 <= j < n implies spec_find_from(
                    bv1.map,
                    spec_translate_vertex(vs[j], off),
                    0,
                ) is Some by {
                    lemma_find_from_push(bvp.map, e, spec_translate_vertex(vs[j], off), 0);
                }
            },
        }
    }
}

/// When every translated vertex is already registered, deduplicating
/// insertion changes nothing.
proof fn lemma_bake_verts_no_new(bv: BuilderView, vs: Seq<Vertex>, off: RVec3, n: int)
    requires
        n <= vs.len(),
        forall|j: int|
            0 <= j < n ==> spec_find_from(bv.map, spec_translate_vertex(vs[j], off), 0) is Some,
    ensures
        spec_bake_verts(bv, vs, off, n).0 == bv,
    decreases n,
{
    if n > 0 {
        lemma_bake_verts_no_new(bv, vs, off, n - 1);
    }
}

/// Baking the same fragment twice at the same offset leaves the vertex list
/// exactly as after the first bake (full overlap: zero net-new vertices),
/// while each bake appends the fragment's full index count.
pub proof fn lemma_bake_twice_dedup(bv: BuilderView, vs: Seq<Vertex>, is: Seq<u32>, off: RVec3)
    ensures
        ({
            let b1 = spec_bake(bv, vs, is, off);
            let b2 = spec_bake(b1, vs, is, off);
            &&& b2.vertexs == b1.vertexs
            &&& b1.indices.len() == bv.indices.len() + is.len()
            &&& b2.indices.len() == b1.indices.len() + is.len()
        }),
{
    let n = vs.len() as int;
    let b1 = spec_bake(bv, vs, is, off);
    let b2 = spec_bake(b1, vs, is, off);
    let (bv1, t1) = spec_bake_verts(bv, vs, off, n);
    lemma_bake_verts_indices(bv, vs, off, n);
    assert(b1.map == bv1.map);
    assert(b1.vertexs == bv1.vertexs);
    assert(b1.indices.len() == bv.indices.len() + is.len());
    lemma_bake_verts_registers(bv, vs, off, n);
    lemma_bake_verts_no_new(b1, vs, off, n);
    let (bv2, t2) = spec_bake_verts(b1, vs, off, n);
    assert(bv2 == b1);
    assert(b2.vertexs == b1.vertexs);
    assert(b2.indices.len() == b1.indices.len() + is.len());
}

/// Deduplicating insertion never touches the accumulated index list.
proof fn lemma_bake_verts_indices(bv: BuilderView, vs: Seq<Vertex>, off: RVec3, n: int)
    requires
        n <= vs.len(),
    ensures
        spec_bake_verts(bv, vs, off, n).0.indices == bv.indices,
    decreases n,
{
    if n > 0 {
        lemma_bake_verts_indices(bv, vs, off, n - 1);
    }
}

/// Adding the same fragment twice at the same offset doubles both the vertex
/// count and the index count: nothing fuses.
pub proof fn lemma_add_twice_no_fusion(bv: BuilderView, vs: Seq<Vertex>, is: Seq<u32>, off: RVec3)
    ensures
        ({
            let b1 = spec_add(bv, vs, is, off);
            let b2 = spec_add(b1, vs, is, off);
            &&& b2.vertexs.len() == bv.vertexs.len() + 2 * vs.len()
            &&& b2.indices.len() == bv.indices.len() + 2 * is.len()
        }),
{
}

} // verus!
