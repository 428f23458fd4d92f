//! The connector tile type: a river matches each of its six edges and six
//! corners to the categories its neighbours present, selecting and rotating
//! the straight and corner variants so that the hex perimeter tiles without
//! gaps or overlap.

use crate::builder::spec_bake;
use crate::builder::BuilderView;
use crate::builder::WaveBuilder;
use crate::errors::BakeError;
use crate::fx::Fx;
use crate::hex_trig::spec_rot_cos_raw;
use crate::hex_trig::spec_rot_sin_raw;
use crate::hex_trig::HexTrig;
use crate::mesh_library::spec_lib_get;
use crate::mesh_library::spec_lib_wf;
use crate::mesh_library::MeshLibrary;
use crate::mesh_library::LIB_COORD_MAX;
use crate::objects::hexs_map::bake_err_matches;
use crate::objects::hexs_map::spec_lib_meshes_small;
use crate::objects::hexs_map::BakeFail;
use crate::objects::spec_can_connect;
use crate::objects::spec_obj_get;
use crate::objects::Connection;
use crate::objects::WaveKind;
use crate::objects::WaveObject;
use crate::text::str_eq;
use crate::vector::RVec3;
use crate::vector::FX_ROT_COORD_MAX;
use crate::vertex::Vertex;
use crate::wave_mesh::spec_rotate_vertex;
use crate::wave_mesh::MeshView;
use crate::wave_mesh::FX_TRANSLATE_MAX;
use vstd::prelude::*;
use vstd::string::StringExecFns;

verus! {

/// The structural roles a river template maps to meshes: the core, one
/// straight edge per category, and one corner per ordered category pair.
#[derive(Clone, Copy, PartialEq, Eq, Structural, Hash, Debug)]
pub enum ConnectionType {
    Core,
    SW,
    SF,
    CFF,
    CFW,
    CWF,
    CWW,
    SS,
    CFS,
    CSF,
    CWS,
    CSW,
    CSS,
}

/// The name each structural role is registered under.
pub open spec fn spec_ct_name(c: ConnectionType) -> Seq<char> {
    match c {
        ConnectionType::Core => "Core"@,
        ConnectionType::SW => "SW"@,
        ConnectionType::SF => "SF"@,
        ConnectionType::CFF => "CFF"@,
        ConnectionType::CFW => "CFW"@,
        ConnectionType::CWF => "CWF"@,
        ConnectionType::CWW => "CWW"@,
        ConnectionType::SS => "SS"@,
        ConnectionType::CFS => "CFS"@,
        ConnectionType::CSF => "CSF"@,
        ConnectionType::CWS => "CWS"@,
        ConnectionType::CSW => "CSW"@,
        ConnectionType::CSS => "CSS"@,
    }
}

impl ConnectionType {
    pub fn name(&self) -> (r: &'static str)
        ensures
            r@ == spec_ct_name(*self),
    {
        match self {
            ConnectionType::Core => "Core",
            ConnectionType::SW => "SW",
            ConnectionType::SF => "SF",
            ConnectionType::CFF => "CFF",
            ConnectionType::CFW => "CFW",
            ConnectionType::CWF => "CWF",
            ConnectionType::CWW => "CWW",
            ConnectionType::SS => "SS",
            ConnectionType::CFS => "CFS",
            ConnectionType::CSF => "CSF",
            ConnectionType::CWS => "CWS",
            ConnectionType::CSW => "CSW",
            ConnectionType::CSS => "CSS",
        }
    }
}

/// The category one edge presents: the baseline, water, or sand.
#[derive(Clone, Copy, PartialEq, Eq, Structural, Debug)]
pub enum HasConnection {
    Flat,
    Water,
    Sand,
}

/// The category an edge takes from its neighbour: water claims it first,
/// then sand, and the baseline otherwise.
pub open spec fn spec_edge_cat(kind: WaveKind) -> HasConnection {
    if spec_can_connect(kind, "Water"@) {
        HasConnection::Water
    } else if spec_can_connect(kind, "Sand"@) {
        HasConnection::Sand
    } else {
        HasConnection::Flat
    }
}

/// The straight-edge variant for a category.
pub open spec fn spec_straight_variant(c: HasConnection) -> ConnectionType {
    match c {
        HasConnection::Water => ConnectionType::SW,
        HasConnection::Flat => ConnectionType::SF,
        HasConnection::Sand => ConnectionType::SS,
    }
}

/// The corner variant for an ordered pair of edge categories.
pub open spec fn spec_corner_variant(a: HasConnection, b: HasConnection) -> ConnectionType {
    match (a, b) {
        (HasConnection::Water, HasConnection::Water) => ConnectionType::CWW,
        (HasConnection::Water, HasConnection::Flat) => ConnectionType::CWF,
        (HasConnection::Flat, HasConnection::Water) => ConnectionType::CFW,
        (HasConnection::Flat, HasConnection::Flat) => ConnectionType::CFF,
        (HasConnection::Flat, HasConnection::Sand) => ConnectionType::CFS,
        (HasConnection::Water, HasConnection::Sand) => ConnectionType::CWS,
        (HasConnection::Sand, HasConnection::Flat) => ConnectionType::CSF,
        (HasConnection::Sand, HasConnection::Water) => ConnectionType::CSW,
        (HasConnection::Sand, HasConnection::Sand) => ConnectionType::CSS,
    }
}

/// The name a missing straight variant is reported under.
pub open spec fn spec_straight_errname(c: HasConnection) -> Seq<char> {
    match c {
        HasConnection::Water => "Stright Water"@,
        HasConnection::Flat => "Stright Flat"@,
        HasConnection::Sand => "Stright Sand"@,
    }
}

/// The name a missing corner variant is reported under.
pub open spec fn spec_corner_errname(a: HasConnection, b: HasConnection) -> Seq<char> {
    match (a, b) {
        (HasConnection::Water, HasConnection::Water) => "Corner Water Water"@,
        (HasConnection::Water, HasConnection::Flat) => "Corner Water Flat"@,
        (HasConnection::Flat, HasConnection::Water) => "Corner Flat Water"@,
        (HasConnection::Flat, HasConnection::Flat) => "Corner Flat Flat"@,
        (HasConnection::Flat, HasConnection::Sand) => "Corner Flat Sand"@,
        (HasConnection::Water, HasConnection::Sand) => "Corner Water Sand"@,
        (HasConnection::Sand, HasConnection::Flat) => "Corner Sand Flat"@,
        (HasConnection::Sand, HasConnection::Water) => "Corner Sand Water"@,
        (HasConnection::Sand, HasConnection::Sand) => "Corner Sand Sand"@,
    }
}

/// A mesh's vertices rotated into rotation-table slot `i`.
pub open spec fn spec_rotated(vs: Seq<Vertex>, i: int) -> Seq<Vertex> {
    vs.map(
        |k: int, v: Vertex|
            spec_rotate_vertex(v, Fx { raw: spec_rot_sin_raw(i) }, Fx { raw: spec_rot_cos_raw(i) }),
    )
}

/// One edge of the perimeter: bake the straight variant for the edge's
/// category rotated into slot `i`, then the corner variant for the ordered
/// pair (category `i`, category `(i + 1) % 6`) rotated into the same slot.
pub open spec fn spec_river_edge(
    ms: Seq<(Connection, String)>,
    lib: Seq<(Seq<char>, MeshView)>,
    offset: RVec3,
    cats: Seq<HasConnection>,
    i: int,
    bv: BuilderView,
) -> (BuilderView, Option<BakeFail>) {
    let sc = cats[i];
    match spec_obj_get(ms, spec_ct_name(spec_straight_variant(sc))) {
        None => (bv, Some(BakeFail::NotSet(spec_straight_errname(sc), "River"@))),
        Some(h) => match spec_lib_get(lib, h) {
            None => (bv, Some(BakeFail::NotFound(spec_straight_errname(sc), "River"@))),
            Some(m) => {
                let bv1 = spec_bake(bv, spec_rotated(m.vertexs, i), m.indices, offset);
                let cc = spec_corner_variant(cats[i], cats[(i + 1) % 6]);
                match spec_obj_get(ms, spec_ct_name(cc)) {
                    None => (
                        bv1,
                        Some(
                            BakeFail::NotSet(
                                spec_corner_errname(cats[i], cats[(i + 1) % 6]),
                                "River"@,
                            ),
                        ),
                    ),
                    Some(h2) => match spec_lib_get(lib, h2) {
                        None => (
                            bv1,
                            Some(
                                BakeFail::NotFound(
                                    spec_corner_errname(cats[i], cats[(i + 1) % 6]),
                                    "River"@,
                                ),
                            ),
                        ),
                        Some(m2) => (
                            spec_bake(bv1, spec_rotated(m2.vertexs, i), m2.indices, offset),
                            None,
                        ),
                    },
                }
            },
        },
    }
}

/// The first `n` edges in order, stopping at the first failure.
pub open spec fn spec_river_edges(
    ms: Seq<(Connection, String)>,
    lib: Seq<(Seq<char>, MeshView)>,
    offset: RVec3,
    cats: Seq<HasConnection>,
    n: int,
    bv: BuilderView,
) -> (BuilderView, Option<BakeFail>)
    decreases n,
{
    if n <= 0 {
        (bv, None)
    } else {
        let (bv1, e) = spec_river_edges(ms, lib, offset, cats, n - 1, bv);
        if e is Some {
            (bv1, e)
        } else {
            spec_river_edge(ms, lib, offset, cats, n - 1, bv1)
        }
    }
}

/// What baking a river tile does to a builder: the core variant, then the
/// six straight edges and six corners in order, every piece deduplicated
/// against the whole accumulated mesh; the first failure stops the build
/// with the bakes already made kept.
pub open spec fn spec_river_build(
    ms: Seq<(Connection, String)>,
    lib: Seq<(Seq<char>, MeshView)>,
    offset: RVec3,
    kinds: Seq<WaveKind>,
    bv: BuilderView,
) -> (BuilderView, Option<BakeFail>) {
    match spec_obj_get(ms, "Core"@) {
        None => (bv, Some(BakeFail::NotSet("Core"@, "River"@))),
        Some(h) => match spec_lib_get(lib, h) {
            None => (bv, Some(BakeFail::NotFound("River Core"@, "River"@))),
            Some(m) => {
                let bv1 = spec_bake(bv, m.vertexs, m.indices, offset);
                spec_river_edges(
                    ms,
                    lib,
                    offset,
                    kinds.map(|k: int, kd: WaveKind| spec_edge_cat(kd)),
                    6,
                    bv1,
                )
            },
        },
    }
}

/// A failure at one edge is the whole fold's failure.
pub proof fn lemma_river_edges_stop(
    ms: Seq<(Connection, String)>,
    lib: Seq<(Seq<char>, MeshView)>,
    offset: RVec3,
    cats: Seq<HasConnection>,
    i: int,
    n: int,
    bv: BuilderView,
)
    requires
        0 <= i <= n,
        spec_river_edges(ms, lib, offset, cats, i, bv).1 is Some,
    ensures
        spec_river_edges(ms, lib, offset, cats, n, bv) == spec_river_edges(
            ms,
            lib,
            offset,
            cats,
            i,
            bv,
        ),
    decreases n - i,
{
    if i < n {
        lemma_river_edges_stop(ms, lib, offset, cats, i, n - 1, bv);
    }
}

/// Against a ring of six neighbours that all claim the "Water" category,
/// edge matching selects the water straight variant for every edge and the
/// water-water corner variant for every corner.
pub proof fn lemma_water_ring_selects_water(kinds: Seq<WaveKind>)
    requires
        kinds.len() == 6,
        forall|i: int| 0 <= i < 6 ==> spec_can_connect(#[trigger] kinds[i], "Water"@),
    ensures
        forall|i: int|
            0 <= i < 6 ==> {
                &&& spec_straight_variant(spec_edge_cat(#[trigger] kinds[i]))
                    == ConnectionType::SW
                &&& spec_corner_variant(
                    spec_edge_cat(kinds[i]),
                    spec_edge_cat(kinds[(i + 1) % 6]),
                ) == ConnectionType::CWW
            },
{
    assert forall|i: int| 0 <= i < 6 implies spec_edge_cat(#[trigger] kinds[i])
        == HasConnection::Water by {
        assert(spec_can_connect(kinds[i], "Water"@));
    }
}

/// A river build over an all-water ring whose template resolves the core
/// and water straight variants but lacks the water-water corner mapping
/// fails with exactly the variant-not-configured error naming that variant
/// and the river tile type.
pub proof fn lemma_missing_corner_reported(
    ms: Seq<(Connection, String)>,
    lib: Seq<(Seq<char>, MeshView)>,
    offset: RVec3,
    kinds: Seq<WaveKind>,
    bv: BuilderView,
)
    requires
        kinds.len() == 6,
        forall|i: int| 0 <= i < 6 ==> spec_can_connect(#[trigger] kinds[i], "Water"@),
        spec_obj_get(ms, "Core"@) is Some,
        spec_lib_get(lib, spec_obj_get(ms, "Core"@).unwrap()) is Some,
        spec_obj_get(ms, "SW"@) is Some,
        spec_lib_get(lib, spec_obj_get(ms, "SW"@).unwrap()) is Some,
        spec_obj_get(ms, "CWW"@) is None,
    ensures
        spec_river_build(ms, lib, offset, kinds, bv).1 == Some(
            BakeFail::NotSet("Corner Water Water"@, "River"@),
        ),
{
    let cats = kinds.map(|k: int, kd: WaveKind| spec_edge_cat(kd));
    assert(cats[0] == HasConnection::Water) by {
        assert(spec_can_connect(kinds[0], "Water"@));
    }
    assert(cats[1] == HasConnection::Water) by {
        assert(spec_can_connect(kinds[1], "Water"@));
    }
    let core_mesh = spec_lib_get(lib, spec_obj_get(ms, "Core"@).unwrap()).unwrap();
    let bv1 = spec_bake(bv, core_mesh.vertexs, core_mesh.indices, offset);
    assert(spec_river_edge(ms, lib, offset, cats, 0, bv1).1 == Some(
        BakeFail::NotSet("Corner Water Water"@, "River"@),
    ));
    assert(spec_river_edges(ms, lib, offset, cats, 1, bv1).1 == spec_river_edge(
        ms,
        lib,
        offset,
        cats,
        0,
        bv1,
    ).1) by {
        reveal_with_fuel(spec_river_edges, 3);
    }
    lemma_river_edges_stop(ms, lib, offset, cats, 1, 6, bv1);
}

pub struct RiverObject;

impl RiverObject {
    /// A river tile type: the core category maps to the given mesh name,
    /// and every structural role maps to a mesh named after the role.
    pub fn new(core: &str) -> (r: WaveObject)
        ensures
            r.kind == WaveKind::River,
            spec_obj_get(r.meshes@, "Core"@) == Some(core@),
            forall|c: ConnectionType|
                c != ConnectionType::Core ==> spec_obj_get(r.meshes@, spec_ct_name(c)) == Some(
                    spec_ct_name(c),
                ),
    {
        let mut meshes: Vec<(Connection, String)> = Vec::new();
        meshes.push((Connection::new("Core"), String::from_str(core)));
        meshes.push((Connection::new("SW"), String::from_str("SW")));
        meshes.push((Connection::new("SF"), String::from_str("SF")));
        meshes.push((Connection::new("CFF"), String::from_str("CFF")));
        meshes.push((Connection::new("CFW"), String::from_str("CFW")));
        meshes.push((Connection::new("CWF"), String::from_str("CWF")));
        meshes.push((Connection::new("CWW"), String::from_str("CWW")));
        meshes.push((Connection::new("SS"), String::from_str("SS")));
        meshes.push((Connection::new("CFS"), String::from_str("CFS")));
        meshes.push((Connection::new("CSF"), String::from_str("CSF")));
        meshes.push((Connection::new("CWS"), String::from_str("CWS")));
        meshes.push((Connection::new("CSW"), String::from_str("CSW")));
        meshes.push((Connection::new("CSS"), String::from_str("CSS")));
        let r = WaveObject { meshes, kind: WaveKind::River };
        proof {
            reveal_strlit("Core");
            reveal_strlit("SW");
            reveal_strlit("SF");
            reveal_strlit("CFF");
            reveal_strlit("CFW");
            reveal_strlit("CWF");
            reveal_strlit("CWW");
            reveal_strlit("SS");
            reveal_strlit("CFS");
            reveal_strlit("CSF");
            reveal_strlit("CWS");
            reveal_strlit("CSW");
            reveal_strlit("CSS");
            assert forall|c: ConnectionType| c != ConnectionType::Core implies spec_obj_get(
                r.meshes@,
                spec_ct_name(c),
            ) == Some(spec_ct_name(c)) by {
                reveal_with_fuel(crate::objects::spec_obj_get_from, 15);
            }
            assert(spec_obj_get(r.meshes@, "Core"@) == Some(core@)) by {
                reveal_with_fuel(crate::objects::spec_obj_get_from, 15);
            }
        }
        r
    }

    /// River connects exactly to the "Water" category.
    pub fn can_connect(connection: Connection) -> (r: bool)
        ensures
            r == (connection@ == "Water"@),
    {
        str_eq(connection.name(), "Water")
    }

    /// Bake a river tile: the core variant, then for each of the six edges
    /// the straight variant of that edge's category and the corner variant
    /// of the ordered category pair shared with the next edge, each rotated
    /// into the edge's rotation-table slot.
    #[verifier::rlimit(60)]
    pub fn bake(
        obj: &WaveObject,
        offset: RVec3,
        meshs: &MeshLibrary,
        main_mesh: &mut WaveBuilder,
        neighbours: &[WaveObject; 6],
    ) -> (r: Result<(), BakeError>)
        requires
            old(main_mesh)@.wf(),
            spec_lib_wf(meshs@),
            spec_lib_meshes_small(meshs@),
            old(main_mesh)@.vertexs.len() <= 0x1000_0000,
            offset.bounded(FX_TRANSLATE_MAX as int),
        ensures
            ({
                let sb = spec_river_build(
                    obj.meshes@,
                    meshs@,
                    offset,
                    neighbours@.map(|k: int, o: WaveObject| o.kind),
                    old(main_mesh)@,
                );
                &&& final(main_mesh)@ == sb.0
                &&& final(main_mesh)@.wf()
                &&& match r {
                    Ok(()) => sb.1 is None,
                    Err(e) => sb.1 is Some && bake_err_matches(e, sb.1.unwrap()),
                }
            }),
    {
        let ghost kinds = neighbours@.map(|k: int, o: WaveObject| o.kind);
        let handle = match obj.get("Core") {
            Some(h) => h,
            None => {
                return Err(BakeError::MeshNotSet { mesh: "Core", obj: "River" });
            },
        };
        let mesh = match meshs.get(handle.as_str()) {
            Some(m) => m,
            None => {
                return Err(BakeError::MeshNotFound { mesh: "River Core", obj: "River" });
            },
        };
        proof {
            crate::mesh_library::lemma_lib_get_props(meshs@, handle@);
            crate::builder::lemma_bake_verts_wf(
                main_mesh@,
                mesh.vertexs@,
                offset,
                mesh.vertexs@.len() as int,
            );
        }
        let _core = main_mesh.bake(offset, mesh);
        let ghost bv1 = main_mesh@;
        let water = Connection::new("Water");
        let sandc = Connection::new("Sand");
        let mut cats: Vec<HasConnection> = Vec::new();
        let mut i: usize = 0;
        while i < 6
            invariant
                i <= 6,
                cats@.len() == i,
                water@ == "Water"@,
                sandc@ == "Sand"@,
                kinds == neighbours@.map(|k: int, o: WaveObject| o.kind),
                forall|k: int| 0 <= k < i ==> cats@[k] == spec_edge_cat(kinds[k]),
            decreases 6 - i,
        {
            let c = if neighbours[i].can_connect(water.clone()) {
                HasConnection::Water
            } else if neighbours[i].can_connect(sandc.clone()) {
                HasConnection::Sand
            } else {
                HasConnection::Flat
            };
            cats.push(c);
            i = i + 1;
        }
        let ghost catsq = cats@;
        proof {
            assert(catsq =~= kinds.map(|k: int, kd: WaveKind| spec_edge_cat(kd)));
            assert(spec_river_build(obj.meshes@, meshs@, offset, kinds, old(main_mesh)@)
                == spec_river_edges(obj.meshes@, meshs@, offset, catsq, 6, bv1));
        }
        let mut e: usize = 0;
        while e < 6
            invariant
                e <= 6,
                kinds == neighbours@.map(|k: int, o: WaveObject| o.kind),
                spec_river_build(obj.meshes@, meshs@, offset, kinds, old(main_mesh)@)
                    == spec_river_edges(obj.meshes@, meshs@, offset, catsq, 6, bv1),
                cats@ == catsq,
                catsq.len() == 6,
                spec_lib_wf(meshs@),
                spec_lib_meshes_small(meshs@),
                offset.bounded(FX_TRANSLATE_MAX as int),
                bv1.vertexs.len() <= 0x1100_0000,
                main_mesh@.wf(),
                main_mesh@.vertexs.len() <= bv1.vertexs.len() + e * 0x200_0000,
                spec_river_edges(obj.meshes@, meshs@, offset, catsq, e as int, bv1).0 == main_mesh@,
                spec_river_edges(obj.meshes@, meshs@, offset, catsq, e as int, bv1).1 is None,
            decreases 6 - e,
        {
            let ghost before = main_mesh@;
            match river_edge(obj, offset, meshs, main_mesh, &cats, e) {
                Ok(()) => {},
                Err(err) => {
                    proof {
                        assert(spec_river_edges(obj.meshes@, meshs@, offset, catsq, e + 1, bv1)
                            == spec_river_edge(obj.meshes@, meshs@, offset, catsq, e as int, before));
                        lemma_river_edges_stop(
                            obj.meshes@,
                            meshs@,
                            offset,
                            catsq,
                            e + 1,
                            6,
                            bv1,
                        );
                    }
                    return Err(err);
                },
            }
            e = e + 1;
        }
        Ok(())
    }
}

/// One edge of a river bake, mirroring `spec_river_edge` exactly.
fn river_edge(
    obj: &WaveObject,
    offset: RVec3,
    meshs: &MeshLibrary,
    main_mesh: &mut WaveBuilder,
    cats: &Vec<HasConnection>,
    i: usize,
) -> (r: Result<(), BakeError>)
    requires
        old(main_mesh)@.wf(),
        spec_lib_wf(meshs@),
        spec_lib_meshes_small(meshs@),
        old(main_mesh)@.vertexs.len() <= 0x7000_0000,
        offset.bounded(FX_TRANSLATE_MAX as int),
        cats@.len() == 6,
        i < 6,
    ensures
        ({
            let se = spec_river_edge(obj.meshes@, meshs@, offset, cats@, i as int, old(main_mesh)@);
            &&& final(main_mesh)@ == se.0
            &&& final(main_mesh)@.wf()
            &&& final(main_mesh)@.vertexs.len() <= old(main_mesh)@.vertexs.len() + 0x200_0000
            &&& match r {
                Ok(()) => se.1 is None,
                Err(e) => se.1 is Some && bake_err_matches(e, se.1.unwrap()),
            }
        }),
{
    let sc = cats[i];
    let straight_ct = match sc {
        HasConnection::Water => ConnectionType::SW,
        HasConnection::Flat => ConnectionType::SF,
        HasConnection::Sand => ConnectionType::SS,
    };
    let handle = match obj.get(straight_ct.name()) {
        Some(h) => h,
        None => {
            let errname: &'static str = match sc {
                HasConnection::Water => "Stright Water",
                HasConnection::Flat => "Stright Flat",
                HasConnection::Sand => "Stright Sand",
            };
            return Err(BakeError::MeshNotSet { mesh: errname, obj: "River" });
        },
    };
    let mesh = match meshs.get(handle.as_str()) {
        Some(m) => m,
        None => {
            let errname: &'static str = match sc {
                HasConnection::Water => "Stright Water",
                HasConnection::Flat => "Stright Flat",
                HasConnection::Sand => "Stright Sand",
            };
            return Err(BakeError::MeshNotFound { mesh: errname, obj: "River" });
        },
    };
    let mut st = mesh.clone();
    proof {
        crate::mesh_library::lemma_lib_get_props(meshs@, handle@);
        assert forall|k: int| 0 <= k < st.vertexs@.len() implies (
        #[trigger] st.vertexs@[k]).position.bounded(FX_ROT_COORD_MAX as int) by {
            assert(st.vertexs@[k].position.bounded(LIB_COORD_MAX as int));
        }
    }
    let sin = <Fx as HexTrig>::rotations_sin(i);
    let cos = <Fx as HexTrig>::rotations_cos(i);
    st.rotate(sin, cos);
    proof {
        assert(st.vertexs@ == spec_rotated(mesh.vertexs@, i as int));
        crate::builder::lemma_bake_verts_wf(main_mesh@, st.vertexs@, offset, st.vertexs@.len() as int);
        assert forall|k: int| 0 <= k < st.vertexs@.len() implies (
        #[trigger] st.vertexs@[k]).position.bounded(FX_TRANSLATE_MAX as int) by {
            assert(st.vertexs@[k].position.bounded(2 * FX_ROT_COORD_MAX));
        }
    }
    let _s = main_mesh.bake(offset, &st);
    let ghost bvmid = main_mesh@;
    let j = (i + 1) % 6;
    let corner_ct = match (cats[i], cats[j]) {
        (HasConnection::Water, HasConnection::Water) => ConnectionType::CWW,
        (HasConnection::Water, HasConnection::Flat) => ConnectionType::CWF,
        (HasConnection::Flat, HasConnection::Water) => ConnectionType::CFW,
        (HasConnection::Flat, HasConnection::Flat) => ConnectionType::CFF,
        (HasConnection::Flat, HasConnection::Sand) => ConnectionType::CFS,
        (HasConnection::Water, HasConnection::Sand) => ConnectionType::CWS,
        (HasConnection::Sand, HasConnection::Flat) => ConnectionType::CSF,
        (HasConnection::Sand, HasConnection::Water) => ConnectionType::CSW,
        (HasConnection::Sand, HasConnection::Sand) => ConnectionType::CSS,
    };
    let handle2 = match obj.get(corner_ct.name()) {
        Some(h) => h,
        None => {
            let errname: &'static str = match (cats[i], cats[j]) {
                (HasConnection::Water, HasConnection::Water) => "Corner Water Water",
                (HasConnection::Water, HasConnection::Flat) => "Corner Water Flat",
                (HasConnection::Flat, HasConnection::Water) => "Corner Flat Water",
                (HasConnection::Flat, HasConnection::Flat) => "Corner Flat Flat",
                (HasConnection::Flat, HasConnection::Sand) => "Corner Flat Sand",
                (HasConnection::Water, HasConnection::Sand) => "Corner Water Sand",
                (HasConnection::Sand, HasConnection::Flat) => "Corner Sand Flat",
                (HasConnection::Sand, HasConnection::Water) => "Corner Sand Water",
                (HasConnection::Sand, HasConnection::Sand) => "Corner Sand Sand",
            };
            return Err(BakeError::MeshNotSet { mesh: errname, obj: "River" });
        },
    };
    let mesh2 = match meshs.get(handle2.as_str()) {
        Some(m) => m,
        None => {
            let errname: &'static str = match (cats[i], cats[j]) {
                (HasConnection::Water, HasConnection::Water) => "Corner Water Water",
                (HasConnection::Water, HasConnection::Flat) => "Corner Water Flat",
                (HasConnection::Flat, HasConnection::Water) => "Corner Flat Water",
                (HasConnection::Flat, HasConnection::Flat) => "Corner Flat Flat",
                (HasConnection::Flat, HasConnection::Sand) => "Corner Flat Sand",
                (HasConnection::Water, HasConnection::Sand) => "Corner Water Sand",
                (HasConnection::Sand, HasConnection::Flat) => "Corner Sand Flat",
                (HasConnection::Sand, HasConnection::Water) => "Corner Sand Water",
                (HasConnection::Sand, HasConnection::Sand) => "Corner Sand Sand",
            };
            return Err(BakeError::MeshNotFound { mesh: errname, obj: "River" });
        },
    };
    let mut cn = mesh2.clone();
    proof {
        crate::mesh_library::lemma_lib_get_props(meshs@, handle2@);
        assert forall|k: int| 0 <= k < cn.vertexs@.len() implies (
        #[trigger] cn.vertexs@[k]).position.bounded(FX_ROT_COORD_MAX as int) by {
            assert(cn.vertexs@[k].position.bounded(LIB_COORD_MAX as int));
        }
    }
    let sin2 = <Fx as HexTrig>::rotations_sin(i);
    let cos2 = <Fx as HexTrig>::rotations_cos(i);
    cn.rotate(sin2, cos2);
    proof {
        assert(cn.vertexs@ == spec_rotated(mesh2.vertexs@, i as int));
        crate::builder::lemma_bake_verts_wf(main_mesh@, cn.vertexs@, offset, cn.vertexs@.len() as int);
        assert forall|k: int| 0 <= k < cn.vertexs@.len() implies (
        #[trigger] cn.vertexs@[k]).position.bounded(FX_TRANSLATE_MAX as int) by {
            assert(cn.vertexs@[k].position.bounded(2 * FX_ROT_COORD_MAX));
        }
    }
    let _c = main_mesh.bake(offset, &cn);
    Ok(())
}

} // verus!
