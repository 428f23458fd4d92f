//! Tile templates and their connection keys.
//!
//! A `Connection` is a category name with a precomputed hash: the hash makes
//! the common "not equal" comparison cheap, while equality remains exactly
//! name equality.  A `WaveObject` is one tile *type*: its category-to-mesh
//! mapping plus its build and can-connect behaviour, selected by a closed
//! set of kinds.

use crate::text::str_eq;
use vstd::prelude::*;
use vstd::string::StrSliceExecFns;
use vstd::string::StringExecFns;

pub mod hexs_map;

verus! {

/// Deterministic name hash (Fowler-Noll-Vo over the characters), cached in
/// every `Connection`.
pub closed spec fn spec_name_hash(s: Seq<char>) -> u64
    decreases s.len(),
{
    if s.len() == 0 {
        0xcbf29ce484222325u64
    } else {
        vstd::wrapping::u64_specs::wrapping_mul(
            spec_name_hash(s.drop_last()) ^ (s.last() as u64),
            0x100000001b3,
        )
    }
}

/// A category key: a name with its hash.  Two connections are equal exactly
/// when their names are equal.
pub struct Connection {
    name: String,
    hash: u64,
}

impl View for Connection {
    type V = Seq<char>;

    closed spec fn view(&self) -> Seq<char> {
        self.name@
    }
}

impl Connection {
    /// The cached hash is always the hash of the name.
    #[verifier::type_invariant]
    closed spec fn inv(self) -> bool {
        self.hash == spec_name_hash(self.name@)
    }

    pub fn new(id: &str) -> (r: Connection)
        ensures
            r@ == id@,
    {
        let name = String::from_str(id);
        let hash = name_hash(id);
        Connection { name, hash }
    }

    pub fn name(&self) -> (r: &str)
        ensures
            r@ == self@,
    {
        self.name.as_str()
    }
}

/// Hash of a name's characters.
fn name_hash(s: &str) -> (r: u64)
    ensures
        r == spec_name_hash(s@),
{
    let n = s.unicode_len();
    let mut h: u64 = 0xcbf29ce484222325;
    let mut i: usize = 0;
    while i < n
        invariant
            n == s@.len(),
            i <= n,
            h == spec_name_hash(s@.take(i as int)),
        decreases n - i,
    {
        let c = s.get_char(i);
        h = (h ^ (c as u64)).wrapping_mul(0x100000001b3);
        i = i + 1;
        proof {
            assert(s@.take(i as int).drop_last() =~= s@.take(i as int - 1));
        }
    }
    proof {
        assert(s@.take(n as int) =~= s@);
    }
    h
}

impl Clone for Connection {
    /// A clone carries the same name.
    fn clone(&self) -> (r: Connection)
        ensures
            r@ == self@,
    {
        proof {
            use_type_invariant(self);
        }
        Connection { name: self.name.clone(), hash: self.hash }
    }
}

impl PartialEq for Connection {
    /// Unequal hashes decide inequality without touching the names; equal
    /// hashes fall back to exact name comparison.
    fn eq(&self, other: &Connection) -> (r: bool) {
        proof {
            use_type_invariant(self);
            use_type_invariant(other);
        }
        if self.hash != other.hash {
            return false;
        }
        str_eq(self.name.as_str(), other.name.as_str())
    }
}

impl vstd::std_specs::cmp::PartialEqSpecImpl for Connection {
    open spec fn obeys_eq_spec() -> bool {
        true
    }

    open spec fn eq_spec(&self, other: &Connection) -> bool {
        self@ == other@
    }
}

impl Eq for Connection {}

/// The closed set of tile-type behaviours.
#[derive(Clone, Copy, PartialEq, Eq, Structural, Debug)]
pub enum WaveKind {
    /// An isolated tile: bakes only its core variant.
    Sand,
    /// A connector tile: matches all six edges and corners to neighbours.
    River,
    /// A procedurally decorated tile: core plus seeded decoration.
    Desert,
}

/// One tile type: its category-to-mesh-name mapping and its behaviour kind.
pub struct WaveObject {
    pub meshes: Vec<(Connection, String)>,
    pub kind: WaveKind,
}

/// First mesh name registered under `name`, scanning from `i`.
pub open spec fn spec_obj_get_from(
    ms: Seq<(Connection, String)>,
    name: Seq<char>,
    i: int,
) -> Option<Seq<char>>
    decreases ms.len() - i,
{
    if i < 0 || i >= ms.len() {
        None
    } else if ms[i].0@ == name {
        Some(ms[i].1@)
    } else {
        spec_obj_get_from(ms, name, i + 1)
    }
}

/// The mesh name a tile type maps `name` to, if any.
pub open spec fn spec_obj_get(ms: Seq<(Connection, String)>, name: Seq<char>) -> Option<Seq<char>> {
    spec_obj_get_from(ms, name, 0)
}

/// The can-connect predicate of each kind: a pure function of the requested
/// category name, stable for the lifetime of the tile template.
pub open spec fn spec_can_connect(kind: WaveKind, name: Seq<char>) -> bool {
    match kind {
        WaveKind::Sand => name == "Sand"@,
        WaveKind::River => name == "Water"@,
        WaveKind::Desert => name == "Sand"@,
    }
}

impl WaveObject {
    /// The mesh name registered for a category.
    pub fn get(&self, name: &str) -> (r: Option<&String>)
        ensures
            match r {
                Some(s) => spec_obj_get(self.meshes@, name@) == Some(s@),
                None => spec_obj_get(self.meshes@, name@) is None,
            },
    {
        let n = self.meshes.len();
        let mut i: usize = 0;
        while i < n
            invariant
                n == self.meshes@.len(),
                i <= n,
                spec_obj_get(self.meshes@, name@) == spec_obj_get_from(
                    self.meshes@,
                    name@,
                    i as int,
                ),
            decreases n - i,
        {
            if str_eq(self.meshes[i].0.name(), name) {
                return Some(&self.meshes[i].1);
            }
            i = i + 1;
        }
        None
    }

    /// Whether this tile type presents the requested category at its edges.
    pub fn can_connect(&self, connection: Connection) -> (r: bool)
        ensures
            r == spec_can_connect(self.kind, connection@),
    {
        match self.kind {
            WaveKind::Sand => crate::objects::hexs_map::sand::Sand::can_connect(connection),
            WaveKind::River => crate::objects::hexs_map::river::RiverObject::can_connect(
                connection,
            ),
            WaveKind::Desert => crate::objects::hexs_map::desert::Desert::can_connect(connection),
        }
    }

    /// Emit this tile type's bake sequence into the builder at the tile
    /// offset, resolving variant names against the mesh library.  A
    /// connector tile reads its six neighbours from the context; a seeded
    /// tile reads its per-tile seed; an isolated tile ignores the context.
    pub fn build(
        &self,
        offset: crate::vector::RVec3,
        meshs: &crate::mesh_library::MeshLibrary,
        main_mesh: &mut crate::builder::WaveBuilder,
        neighbours: &WaveContext<'_>,
    ) -> (r: Result<(), crate::errors::BakeError>)
        requires
            old(main_mesh)@.wf(),
            crate::mesh_library::spec_lib_wf(meshs@),
            crate::objects::hexs_map::spec_lib_meshes_small(meshs@),
            old(main_mesh)@.vertexs.len() <= 0x1000_0000,
            offset.bounded(0x2000_0000_0000),
            self.kind == WaveKind::River ==> neighbours matches WaveContext::Ring(_),
            self.kind == WaveKind::Desert ==> neighbours matches WaveContext::Seeded(_),
        ensures
            final(main_mesh)@.wf(),
            self.kind == WaveKind::Sand ==> ({
                let sb = crate::objects::hexs_map::sand::spec_sand_build(
                    self.meshes@,
                    meshs@,
                    offset,
                    old(main_mesh)@,
                );
                &&& final(main_mesh)@ == sb.0
                &&& match r {
                    Ok(()) => sb.1 is None,
                    Err(e) => sb.1 is Some && crate::objects::hexs_map::bake_err_matches(
                        e,
                        sb.1.unwrap(),
                    ),
                }
            }),
            self.kind == WaveKind::River ==> (forall|ns: &[WaveObject; 6]|
                *neighbours == WaveContext::Ring(ns) ==> {
                    let sb = crate::objects::hexs_map::river::spec_river_build(
                        self.meshes@,
                        meshs@,
                        offset,
                        ns@.map(|k: int, o: WaveObject| o.kind),
                        old(main_mesh)@,
                    );
                    &&& final(main_mesh)@ == sb.0
                    &&& match r {
                        Ok(()) => sb.1 is None,
                        Err(e) => sb.1 is Some && crate::objects::hexs_map::bake_err_matches(
                            e,
                            sb.1.unwrap(),
                        ),
                    }
                }),
            self.kind == WaveKind::Desert ==> (forall|seed: u64|
                *neighbours == WaveContext::Seeded(seed) ==> {
                    let sb = crate::objects::hexs_map::desert::spec_desert_build(
                        self.meshes@,
                        meshs@,
                        offset,
                        seed,
                        old(main_mesh)@,
                    );
                    &&& final(main_mesh)@ == sb.0
                    &&& match r {
                        Ok(()) => sb.1 is None,
                        Err(e) => sb.1 is Some && crate::objects::hexs_map::bake_err_matches(
                            e,
                            sb.1.unwrap(),
                        ),
                    }
                }),
    {
        match self.kind {
            WaveKind::Sand => crate::objects::hexs_map::sand::Sand::bake(
                self,
                offset,
                meshs,
                main_mesh,
            ),
            WaveKind::River => {
                match neighbours {
                    WaveContext::Ring(ns) => crate::objects::hexs_map::river::RiverObject::bake(
                        self,
                        offset,
                        meshs,
                        main_mesh,
                        ns,
                    ),
                    _ => {
                        proof {
                            assert(false);
                        }
                        Ok(())
                    },
                }
            },
            WaveKind::Desert => {
                match neighbours {
                    WaveContext::Seeded(seed) => crate::objects::hexs_map::desert::Desert::bake(
                        self,
                        offset,
                        meshs,
                        main_mesh,
                        *seed,
                    ),
                    _ => {
                        proof {
                            assert(false);
                        }
                        Ok(())
                    },
                }
            },
        }
    }
}

/// The neighbour context a tile build reads: nothing for an isolated tile,
/// the fixed hex ring of six neighbouring tile types for a connector tile,
/// or the per-tile seed for a procedurally decorated tile.
pub enum WaveContext<'a> {
    Isolated,
    Ring(&'a [WaveObject; 6]),
    Seeded(u64),
}

} // verus!
