//! An immutable named mesh fragment: a vertex list plus a flat triangle
//! index list, three indices per face.
//!
//! Templates are produced once by the parser and cloned whenever a placement
//! needs a rotated or shifted private copy; a transform never touches the
//! shared original.

use crate::fx::Fx;
use crate::fx::FX_SCALE;
use crate::vector::RVec3;
use crate::vector::FX_ROT_COORD_MAX;
use crate::vertex::Vertex;
use vstd::prelude::*;

verus! {

#[derive(Debug)]
pub struct WaveMesh {
    pub vertexs: Vec<Vertex>,
    pub indices: Vec<u32>,
}

/// The abstract content of a mesh: its vertex and index sequences.
#[verifier::ext_equal]
pub struct MeshView {
    pub vertexs: Seq<Vertex>,
    pub indices: Seq<u32>,
}

impl View for WaveMesh {
    type V = MeshView;

    open spec fn view(&self) -> MeshView {
        MeshView { vertexs: self.vertexs@, indices: self.indices@ }
    }
}

/// A vertex rotated about the vertical axis.
pub open spec fn spec_rotate_vertex(v: Vertex, sin: Fx, cos: Fx) -> Vertex {
    Vertex { position: v.position.spec_rotate_y(sin, cos), uv: v.uv }
}

/// A vertex translated by `off`.
pub open spec fn spec_translate_vertex(v: Vertex, off: RVec3) -> Vertex {
    Vertex { position: v.position.spec_add(off), uv: v.uv }
}

/// A vertex whose vertical component is scaled by `f`.
pub open spec fn spec_scale_y_vertex(v: Vertex, f: Fx) -> Vertex {
    Vertex {
        position: RVec3 {
            x: v.position.x,
            y: Fx { raw: Fx::spec_mul(v.position.y.raw, f.raw) as i64 },
            z: v.position.z,
        },
        uv: v.uv,
    }
}

/// Every triangle index references an existing vertex.
pub open spec fn spec_indices_valid(vertexs: Seq<Vertex>, indices: Seq<u32>) -> bool {
    forall|i: int| 0 <= i < indices.len() ==> (indices[i] as int) < vertexs.len()
}

/// Every coordinate of every vertex stays within `m` in magnitude.
pub open spec fn spec_coords_bounded(vertexs: Seq<Vertex>, m: int) -> bool {
    forall|i: int| 0 <= i < vertexs.len() ==> (#[trigger] vertexs[i]).position.bounded(m)
}

impl WaveMesh {
    /// Structural well-formedness: the index list only references vertices
    /// that exist.
    pub open spec fn wf(&self) -> bool {
        spec_indices_valid(self.vertexs@, self.indices@)
    }

    pub open spec fn bounded(&self, m: int) -> bool {
        spec_coords_bounded(self.vertexs@, m)
    }

    pub fn new() -> (r: WaveMesh)
        ensures
            r.vertexs@ == Seq::<Vertex>::empty(),
            r.indices@ == Seq::<u32>::empty(),
    {
        WaveMesh { vertexs: Vec::new(), indices: Vec::new() }
    }

    /// Rotate every vertex about the vertical axis by the given exact
    /// (sine, cosine) pair; triangle indices are unchanged.
    pub fn rotate(&mut self, sin: Fx, cos: Fx)
        requires
            old(self).bounded(FX_ROT_COORD_MAX as int),
            -FX_SCALE <= sin.raw <= FX_SCALE,
            -FX_SCALE <= cos.raw <= FX_SCALE,
        ensures
            final(self).vertexs@ == old(self).vertexs@.map(
                |i: int, v: Vertex| spec_rotate_vertex(v, sin, cos),
            ),
            final(self).indices@ == old(self).indices@,
            final(self).bounded(2 * FX_ROT_COORD_MAX),
    {
        let ghost orig = self.vertexs@;
        let n: usize = self.vertexs.len();
        let mut out: Vec<Vertex> = Vec::new();
        let mut i: usize = 0;
        while i < n
            invariant
                n == orig.len(),
                self.vertexs@ == orig,
                spec_coords_bounded(orig, FX_ROT_COORD_MAX as int),
                -FX_SCALE <= sin.raw <= FX_SCALE,
                -FX_SCALE <= cos.raw <= FX_SCALE,
                i <= n,
                out@ == orig.take(i as int).map(|j: int, v: Vertex| spec_rotate_vertex(v, sin, cos)),
                spec_coords_bounded(out@, 2 * FX_ROT_COORD_MAX),
            decreases n - i,
        {
            let v = self.vertexs[i];
            let mut p = v.position;
            p.rotate_y(sin, cos);
            out.push(Vertex { position: p, uv: v.uv });
            i = i + 1;
            proof {
                assert(orig.take(i as int).drop_last() =~= orig.take(i as int - 1));
                assert(out@ =~= orig.take(i as int).map(
                    |j: int, v: Vertex| spec_rotate_vertex(v, sin, cos),
                ));
            }
        }
        proof {
            assert(orig.take(n as int) =~= orig);
        }
        self.vertexs = out;
    }

    /// Scale every vertex's vertical component by `f`; triangle indices are
    /// unchanged.
    pub fn scale_y(&mut self, f: Fx)
        requires
            old(self).bounded(FX_ROT_COORD_MAX as int),
            -4 * FX_SCALE <= f.raw <= 4 * FX_SCALE,
        ensures
            final(self).vertexs@ == old(self).vertexs@.map(
                |i: int, v: Vertex| spec_scale_y_vertex(v, f),
            ),
            final(self).indices@ == old(self).indices@,
            final(self).bounded(4 * FX_ROT_COORD_MAX),
    {
        let ghost orig = self.vertexs@;
        let n: usize = self.vertexs.len();
        let mut out: Vec<Vertex> = Vec::new();
        let mut i: usize = 0;
        while i < n
            invariant
                n == orig.len(),
                self.vertexs@ == orig,
                spec_coords_bounded(orig, FX_ROT_COORD_MAX as int),
                -4 * FX_SCALE <= f.raw <= 4 * FX_SCALE,
                i <= n,
                out@ == orig.take(i as int).map(|j: int, v: Vertex| spec_scale_y_vertex(v, f)),
                spec_coords_bounded(out@, 4 * FX_ROT_COORD_MAX),
            decreases n - i,
        {
            let v = self.vertexs[i];
            proof {
                crate::fx::lemma_mul_bound(v.position.y.raw, f.raw, FX_ROT_COORD_MAX as int, 4);
            }
            let y = v.position.y.mul(f);
            out.push(
                Vertex {
                    position: RVec3 { x: v.position.x, y, z: v.position.z },
                    uv: v.uv,
                },
            );
            i = i + 1;
            proof {
                assert(orig.take(i as int).drop_last() =~= orig.take(i as int - 1));
                assert(out@ =~= orig.take(i as int).map(
                    |j: int, v: Vertex| spec_scale_y_vertex(v, f),
                ));
            }
        }
        proof {
            assert(orig.take(n as int) =~= orig);
        }
        self.vertexs = out;
    }

    /// Translate every vertex by `off`; triangle indices are unchanged.
    pub fn offset(&mut self, off: RVec3)
        requires
            old(self).bounded(FX_TRANSLATE_MAX as int),
            off.bounded(FX_TRANSLATE_MAX as int),
        ensures
            final(self).vertexs@ == old(self).vertexs@.map(
                |i: int, v: Vertex| spec_translate_vertex(v, off),
            ),
            final(self).indices@ == old(self).indices@,
            final(self).bounded(2 * FX_TRANSLATE_MAX),
    {
        let ghost orig = self.vertexs@;
        let n: usize = self.vertexs.len();
        let mut out: Vec<Vertex> = Vec::new();
        let mut i: usize = 0;
        while i < n
            invariant
                n == orig.len(),
                self.vertexs@ == orig,
                spec_coords_bounded(orig, FX_TRANSLATE_MAX as int),
                off.bounded(FX_TRANSLATE_MAX as int),
                i <= n,
                out@ == orig.take(i as int).map(|j: int, v: Vertex| spec_translate_vertex(v, off)),
                spec_coords_bounded(out@, 2 * FX_TRANSLATE_MAX),
            decreases n - i,
        {
            let v = self.vertexs[i];
            let p = v.position.add(off);
            out.push(Vertex { position: p, uv: v.uv });
            i = i + 1;
            proof {
                assert(orig.take(i as int).drop_last() =~= orig.take(i as int - 1));
                assert(out@ =~= orig.take(i as int).map(
                    |j: int, v: Vertex| spec_translate_vertex(v, off),
                ));
            }
        }
        proof {
            assert(orig.take(n as int) =~= orig);
        }
        self.vertexs = out;
    }
}

/// Largest coordinate magnitude accepted by a translation.
pub const FX_TRANSLATE_MAX: i64 = 0x4000_0000_0000;

/// Rotating a unit mesh (every horizontal coordinate exactly minus one,
/// zero, or one) by rotation-table slot `k` and then by slot `(6 - k) % 6`
/// returns every vertex to its original position, for every `k` below six.
pub proof fn lemma_mesh_rotation_inverse(vs: Seq<Vertex>, k: int)
    requires
        0 <= k < 6,
        forall|i: int|
            0 <= i < vs.len() ==> {
                &&& crate::hex_trig::spec_unit_coord((#[trigger] vs[i]).position.x)
                &&& crate::hex_trig::spec_unit_coord(vs[i].position.z)
            },
    ensures
        ({
            let sin = Fx { raw: crate::hex_trig::spec_rot_sin_raw(k) };
            let cos = Fx { raw: crate::hex_trig::spec_rot_cos_raw(k) };
            let sin_back = Fx { raw: crate::hex_trig::spec_rot_sin_raw((6 - k) % 6) };
            let cos_back = Fx { raw: crate::hex_trig::spec_rot_cos_raw((6 - k) % 6) };
            vs.map(|i: int, v: Vertex| spec_rotate_vertex(v, sin, cos)).map(
                |i: int, v: Vertex| spec_rotate_vertex(v, sin_back, cos_back),
            ) == vs
        }),
{
    let sin = Fx { raw: crate::hex_trig::spec_rot_sin_raw(k) };
    let cos = Fx { raw: crate::hex_trig::spec_rot_cos_raw(k) };
    let sin_back = Fx { raw: crate::hex_trig::spec_rot_sin_raw((6 - k) % 6) };
    let cos_back = Fx { raw: crate::hex_trig::spec_rot_cos_raw((6 - k) % 6) };
    let once = vs.map(|i: int, v: Vertex| spec_rotate_vertex(v, sin, cos));
    let back = once.map(|i: int, v: Vertex| spec_rotate_vertex(v, sin_back, cos_back));
    assert forall|i: int| 0 <= i < vs.len() implies back[i] == vs[i] by {
        crate::hex_trig::lemma_rotation_inverse(vs[i].position, k);
    }
    assert(back =~= vs);
}

impl Clone for WaveMesh {
    /// A clone carries exactly the same vertices and indices.
    fn clone(&self) -> (r: WaveMesh)
        ensures
            r.vertexs@ == self.vertexs@,
            r.indices@ == self.indices@,
    {
        let vertexs = self.vertexs.clone();
        let indices = self.indices.clone();
        proof {
            assert(vertexs@ =~= self.vertexs@);
            assert(indices@ =~= self.indices@);
        }
        WaveMesh { vertexs, indices }
    }
}

} // verus!
