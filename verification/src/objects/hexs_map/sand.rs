//! The isolated tile type: plain sand bakes only its core variant and
//! connects to neighbours that ask for the "Sand" category.

use crate::builder::spec_bake;
use crate::builder::BuilderView;
use crate::builder::WaveBuilder;
use crate::errors::BakeError;
use crate::mesh_library::spec_lib_get;
use crate::mesh_library::spec_lib_wf;
use crate::mesh_library::MeshLibrary;
use crate::objects::hexs_map::bake_err_matches;
use crate::objects::hexs_map::spec_lib_meshes_small;
use crate::objects::hexs_map::BakeFail;
use crate::objects::spec_obj_get;
use crate::objects::Connection;
use crate::objects::WaveKind;
use crate::objects::WaveObject;
use crate::text::str_eq;
use crate::vector::RVec3;
use crate::wave_mesh::FX_TRANSLATE_MAX;
use vstd::prelude::*;
use vstd::string::StringExecFns;

verus! {

pub struct Sand;

/// What baking a sand tile does to a builder: one deduplicating merge of
/// the core variant at the tile offset; nothing when the template lacks the
/// core mapping or the library lacks the mesh.
pub open spec fn spec_sand_build(
    ms: Seq<(Connection, String)>,
    lib: Seq<(Seq<char>, crate::wave_mesh::MeshView)>,
    offset: RVec3,
    bv: BuilderView,
) -> (BuilderView, Option<BakeFail>) {
    match spec_obj_get(ms, "Core"@) {
        None => (bv, Some(BakeFail::NotSet("Core"@, "Sand"@))),
        Some(mesh_name) => match spec_lib_get(lib, mesh_name) {
            None => (bv, Some(BakeFail::NotFound("Core"@, "Sand"@))),
            Some(m) => (spec_bake(bv, m.vertexs, m.indices, offset), None),
        },
    }
}

impl Sand {
    /// A sand tile type mapping its core category to the given mesh name.
    pub fn new(core: &str) -> (r: WaveObject)
        ensures
            r.kind == WaveKind::Sand,
            r.meshes@.len() == 1,
            r.meshes@[0].0@ == "Core"@,
            r.meshes@[0].1@ == core@,
    {
        let mut meshes: Vec<(Connection, String)> = Vec::new();
        meshes.push((Connection::new("Core"), String::from_str(core)));
        WaveObject { meshes, kind: WaveKind::Sand }
    }

    /// Bake the core variant at the tile offset.
    pub fn bake(
        obj: &WaveObject,
        offset: RVec3,
        meshs: &MeshLibrary,
        main_mesh: &mut WaveBuilder,
    ) -> (r: Result<(), BakeError>)
        requires
            old(main_mesh)@.wf(),
            spec_lib_wf(meshs@),
            spec_lib_meshes_small(meshs@),
            old(main_mesh)@.vertexs.len() <= 0x1000_0000,
            offset.bounded(FX_TRANSLATE_MAX as int),
        ensures
            final(main_mesh)@ == spec_sand_build(obj.meshes@, meshs@, offset, old(main_mesh)@).0,
            final(main_mesh)@.wf(),
            match r {
                Ok(()) => spec_sand_build(obj.meshes@, meshs@, offset, old(main_mesh)@).1 is None,
                Err(e) => {
                    &&& spec_sand_build(obj.meshes@, meshs@, offset, old(main_mesh)@).1 is Some
                    &&& bake_err_matches(
                        e,
                        spec_sand_build(obj.meshes@, meshs@, offset, old(main_mesh)@).1.unwrap(),
                    )
                },
            },
    {
        let handle = match obj.get("Core") {
            Some(h) => h,
            None => {
                return Err(BakeError::MeshNotSet { mesh: "Core", obj: "Sand" });
            },
        };
        let mesh = match meshs.get(handle.as_str()) {
            Some(m) => m,
            None => {
                return Err(BakeError::MeshNotFound { mesh: "Core", obj: "Sand" });
            },
        };
        proof {
            crate::mesh_library::lemma_lib_get_props(meshs@, handle@);
        }
        main_mesh.bake(offset, mesh)
    }

    /// Sand connects exactly to the "Sand" category.
    pub fn can_connect(connection: Connection) -> (r: bool)
        ensures
            r == (connection@ == "Sand"@),
    {
        str_eq(connection.name(), "Sand")
    }
}

} // verus!
