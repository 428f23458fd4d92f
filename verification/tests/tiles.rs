use wave_collapse::builder::WaveBuilder;
use wave_collapse::hex_trig::HexTrig;
use wave_collapse::rng::TileRng;
use wave_collapse::errors::BakeError;
use wave_collapse::fx::Fx;
use wave_collapse::mesh_library::MeshLibrary;
use wave_collapse::objects::hexs_map::desert::CactusShapes;
use wave_collapse::objects::hexs_map::desert::Desert;
use wave_collapse::objects::hexs_map::river::RiverObject;
use wave_collapse::objects::hexs_map::sand::Sand;
use wave_collapse::objects::Connection;
use wave_collapse::objects::WaveContext;
use wave_collapse::objects::WaveObject;
use wave_collapse::vector::RVec3;
use wave_collapse::vertex::Vertex;
use wave_collapse::wave_mesh::WaveMesh;

fn fx(raw: i64) -> Fx {
    Fx::from_raw(raw)
}

fn origin() -> RVec3 {
    RVec3::new(fx(0), fx(0), fx(0))
}

fn unit_triangle(uv: u8) -> WaveMesh {
    WaveMesh {
        vertexs: vec![
            Vertex::new(RVec3::new(fx(0), fx(0), fx(0)), uv),
            Vertex::new(RVec3::new(fx(65536), fx(0), fx(0)), uv),
            Vertex::new(RVec3::new(fx(0), fx(0), fx(65536)), uv),
        ],
        indices: vec![0, 1, 2],
    }
}

fn library_with(names: &[&str]) -> MeshLibrary {
    let mut lib = MeshLibrary::new();
    for (i, name) in names.iter().enumerate() {
        lib.insert(String::from(*name), unit_triangle(i as u8));
    }
    lib
}

#[test]
fn connection_equality_is_name_equality() {
    let a = Connection::new("Water");
    let b = Connection::new("Water");
    let c = Connection::new("Sand");
    assert!(a == b);
    assert!(a != c);
    assert_eq!(a.name(), "Water");
    let d = a.clone();
    assert!(d == b);
}

#[test]
fn can_connect_predicates_are_stable() {
    let water = Connection::new("Water");
    let sand = Connection::new("Sand");
    assert!(RiverObject::can_connect(water.clone()));
    assert!(!RiverObject::can_connect(sand.clone()));
    assert!(Sand::can_connect(sand.clone()));
    assert!(!Sand::can_connect(water.clone()));
    assert!(Desert::can_connect(sand));
    assert!(!Desert::can_connect(water));
}

#[test]
fn mesh_library_insert_replaces_in_place() {
    let mut lib = MeshLibrary::new();
    lib.insert(String::from("A"), unit_triangle(1));
    lib.insert(String::from("B"), unit_triangle(2));
    lib.insert(String::from("A"), unit_triangle(3));
    assert_eq!(lib.len(), 2);
    assert_eq!(lib.get("A").unwrap().vertexs[0].uv, 3);
    assert!(lib.get("C").is_none());
}

#[test]
fn sand_bakes_only_its_core() {
    let obj = Sand::new("SandCore");
    let lib = library_with(&["SandCore"]);
    let mut b = WaveBuilder::new();
    obj.build(origin(), &lib, &mut b, &WaveContext::Isolated).unwrap();
    assert_eq!(b.vertex_len(), 3);
    assert_eq!(b.indices_len(), 3);
}

#[test]
fn sand_missing_core_mapping_is_not_set() {
    let obj = WaveObject { meshes: Vec::new(), kind: wave_collapse::objects::WaveKind::Sand };
    let lib = library_with(&["SandCore"]);
    let mut b = WaveBuilder::new();
    let err = Sand::bake(&obj, origin(), &lib, &mut b).unwrap_err();
    assert!(matches!(err, BakeError::MeshNotSet { mesh: "Core", obj: "Sand" }));
}

#[test]
fn sand_unresolved_core_is_not_found() {
    let obj = Sand::new("Missing");
    let lib = library_with(&["SandCore"]);
    let mut b = WaveBuilder::new();
    let err = Sand::bake(&obj, origin(), &lib, &mut b).unwrap_err();
    assert!(matches!(err, BakeError::MeshNotFound { mesh: "Core", obj: "Sand" }));
}

#[test]
fn water_ring_selects_water_straights_and_corners() {
    // every neighbour connects as water, so only Core, SW and CWW are ever
    // needed: a library holding exactly those three satisfies all twelve
    // perimeter bakes
    let obj = RiverObject::new("RiverCore");
    let lib = library_with(&["RiverCore", "SW", "CWW"]);
    let neighbours: [WaveObject; 6] = [
        RiverObject::new("RiverCore"),
        RiverObject::new("RiverCore"),
        RiverObject::new("RiverCore"),
        RiverObject::new("RiverCore"),
        RiverObject::new("RiverCore"),
        RiverObject::new("RiverCore"),
    ];
    let mut b = WaveBuilder::new();
    RiverObject::bake(&obj, origin(), &lib, &mut b, &neighbours).unwrap();
    // one core, six straights, six corners were baked
    assert_eq!(b.indices_len(), 13 * 3);
}

#[test]
fn missing_corner_variant_names_variant_and_tile() {
    // the mapping lacks the water-water corner: the build fails with the
    // variant-not-configured error naming exactly that variant and tile
    let mut obj = RiverObject::new("RiverCore");
    obj.meshes.retain(|e| e.1 != "CWW");
    let lib = library_with(&["RiverCore", "SW", "CWW"]);
    let neighbours: [WaveObject; 6] = [
        RiverObject::new("RiverCore"),
        RiverObject::new("RiverCore"),
        RiverObject::new("RiverCore"),
        RiverObject::new("RiverCore"),
        RiverObject::new("RiverCore"),
        RiverObject::new("RiverCore"),
    ];
    let mut b = WaveBuilder::new();
    let err = RiverObject::bake(&obj, origin(), &lib, &mut b, &neighbours).unwrap_err();
    assert!(matches!(
        err,
        BakeError::MeshNotSet { mesh: "Corner Water Water", obj: "River" }
    ));
}

#[test]
fn sand_ring_selects_sand_variants() {
    // sand neighbours answer for the sand category, so the perimeter uses
    // the sand straight and sand-sand corner variants
    let obj = RiverObject::new("RiverCore");
    let sand_ring: [WaveObject; 6] = [
        Sand::new("C"),
        Sand::new("C"),
        Sand::new("C"),
        Sand::new("C"),
        Sand::new("C"),
        Sand::new("C"),
    ];
    let lib = library_with(&["RiverCore", "SS", "CSS"]);
    let mut b = WaveBuilder::new();
    RiverObject::bake(&obj, origin(), &lib, &mut b, &sand_ring).unwrap();
    assert_eq!(b.indices_len(), 13 * 3);
    // with the sand straight mesh missing from the library, the failure is
    // a data-loading one, not an authoring one
    let lib2 = library_with(&["RiverCore", "SF", "CFF"]);
    let mut b2 = WaveBuilder::new();
    let err = RiverObject::bake(&obj, origin(), &lib2, &mut b2, &sand_ring).unwrap_err();
    assert!(matches!(err, BakeError::MeshNotFound { mesh: "Stright Sand", obj: "River" }));
}

fn desert_library() -> MeshLibrary {
    library_with(&["DesertCore", "CactusStem", "CactusTop", "CactusBranch", "CactusBig"])
}

#[test]
fn desert_same_seed_reproduces_identical_geometry() {
    let obj = Desert::new("DesertCore");
    let lib = desert_library();
    let mut b1 = WaveBuilder::new();
    let mut b2 = WaveBuilder::new();
    Desert::bake(&obj, origin(), &lib, &mut b1, 42).unwrap();
    Desert::bake(&obj, origin(), &lib, &mut b2, 42).unwrap();
    assert_eq!(b1.extract_fixed(), b2.extract_fixed());
    assert!(b1.vertex_len() > 3);
}

#[test]
fn desert_different_seeds_differ() {
    let obj = Desert::new("DesertCore");
    let lib = desert_library();
    let mut b1 = WaveBuilder::new();
    let mut b2 = WaveBuilder::new();
    Desert::bake(&obj, origin(), &lib, &mut b1, 1).unwrap();
    Desert::bake(&obj, origin(), &lib, &mut b2, 2).unwrap();
    assert_ne!(b1.extract_fixed(), b2.extract_fixed());
}

#[test]
fn desert_build_order_does_not_leak_between_tiles() {
    // building two seeded tiles in either order gives each tile the same
    // geometry: the generator is per tile, never shared
    let obj = Desert::new("DesertCore");
    let lib = desert_library();
    let mut ab = WaveBuilder::new();
    Desert::bake(&obj, origin(), &lib, &mut ab, 7).unwrap();
    let a_then = ab.extract_fixed();
    let mut ba = WaveBuilder::new();
    Desert::bake(&obj, origin(), &lib, &mut ba, 9).unwrap();
    ba.clear();
    Desert::bake(&obj, origin(), &lib, &mut ba, 7).unwrap();
    assert_eq!(a_then, ba.extract_fixed());
}

#[test]
fn desert_core_errors_name_the_desert_tile() {
    // both bake errors carry the variant name and the actual tile type
    let mut obj = Desert::new("DesertCore");
    obj.meshes.retain(|e| e.0.name() != "Core");
    let lib = desert_library();
    let mut b = WaveBuilder::new();
    let err = Desert::bake(&obj, origin(), &lib, &mut b, 5).unwrap_err();
    assert!(matches!(err, BakeError::MeshNotSet { mesh: "Core", obj: "Desert" }));
    let obj2 = Desert::new("NoSuchMesh");
    let mut b2 = WaveBuilder::new();
    let err2 = Desert::bake(&obj2, origin(), &lib, &mut b2, 5).unwrap_err();
    assert!(matches!(err2, BakeError::MeshNotFound { mesh: "Core", obj: "Desert" }));
}

#[test]
fn desert_missing_part_is_reported() {
    let mut obj = Desert::new("DesertCore");
    obj.meshes.retain(|e| e.1 != "CactusTop");
    let lib = desert_library();
    let mut b = WaveBuilder::new();
    let err = Desert::bake(&obj, origin(), &lib, &mut b, 5).unwrap_err();
    assert!(matches!(err, BakeError::MeshNotSet { mesh: "CactusTop", obj: "Desert" }));
}

#[test]
fn distributions_map_draws_to_shapes() {
    assert_eq!(CactusShapes::arm_distribution(0), CactusShapes::Zero);
    assert_eq!(CactusShapes::arm_distribution(1), CactusShapes::One);
    assert_eq!(CactusShapes::arm_distribution(2), CactusShapes::TwoOp);
    assert_eq!(CactusShapes::arm_distribution(3), CactusShapes::ThreeDubble);
    assert_eq!(CactusShapes::arm_distribution(4), CactusShapes::TwoDubble);
    assert_eq!(CactusShapes::arm_distribution(5), CactusShapes::TwoSingle);
    assert_eq!(CactusShapes::arm_distribution(64), CactusShapes::ThreeSingle);
    assert_eq!(CactusShapes::cactus_distribution(5), CactusShapes::Zero);
    assert_eq!(CactusShapes::cactus_distribution(0), CactusShapes::One);
    assert_eq!(CactusShapes::cactus_distribution(6), CactusShapes::ThreeSingle);
}

#[test]
fn build_dispatches_on_tile_kind() {
    // the same entry point drives all three tile behaviours
    let sand = Sand::new("C");
    let river = RiverObject::new("RiverCore");
    let desert = Desert::new("DesertCore");
    let mut lib = desert_library();
    for name in ["C", "RiverCore", "SS", "CSS"] {
        lib.insert(String::from(name), unit_triangle(9));
    }
    let ring: [WaveObject; 6] = [
        Sand::new("C"),
        Sand::new("C"),
        Sand::new("C"),
        Sand::new("C"),
        Sand::new("C"),
        Sand::new("C"),
    ];
    let mut b = WaveBuilder::new();
    sand.build(origin(), &lib, &mut b, &WaveContext::Isolated).unwrap();
    assert_eq!(b.indices_len(), 3);
    river.build(origin(), &lib, &mut b, &WaveContext::Ring(&ring)).unwrap();
    assert_eq!(b.indices_len(), 3 + 39);
    let before = b.indices_len();
    desert.build(origin(), &lib, &mut b, &WaveContext::Seeded(11)).unwrap();
    assert!(b.indices_len() > before);
}

#[test]
fn object_lookup_and_predicate_methods() {
    let obj = RiverObject::new("RiverCore");
    assert_eq!(obj.get("Core").unwrap().as_str(), "RiverCore");
    assert_eq!(obj.get("CWW").unwrap().as_str(), "CWW");
    assert!(obj.get("Nope").is_none());
    assert!(obj.can_connect(Connection::new("Water")));
    assert!(!obj.can_connect(Connection::new("Sand")));
}

#[test]
fn rotation_table_holds_exact_constants() {
    let cos: Vec<i64> = (0..6usize).map(|k| Fx::rotations_cos(k).raw).collect();
    let sin: Vec<i64> = (0..6usize).map(|k| Fx::rotations_sin(k).raw).collect();
    assert_eq!(cos, vec![65536, 32768, -32768, -65536, -32768, 32768]);
    assert_eq!(sin, vec![0, 56756, 56756, 0, -56756, -56756]);
}

#[test]
fn shaped_draws_stay_inside_their_bounds() {
    let mut rng = TileRng::seed_from_u64(5);
    for _ in 0..200 {
        let v = rng.sample_shaped(fx(16384), fx(24576), fx(32768));
        assert!(16384 <= v.raw && v.raw <= 32768);
    }
    let mut g = TileRng::seed_from_u64(5);
    for _ in 0..50 {
        assert!(g.geometric() <= 64);
    }
}

#[test]
fn tile_rng_is_deterministic_and_seed_sensitive() {
    let mut a = TileRng::seed_from_u64(77);
    let mut b = TileRng::seed_from_u64(77);
    let mut c = TileRng::seed_from_u64(78);
    let xs: Vec<u64> = (0..8).map(|_| a.next_u64()).collect();
    let ys: Vec<u64> = (0..8).map(|_| b.next_u64()).collect();
    let zs: Vec<u64> = (0..8).map(|_| c.next_u64()).collect();
    assert_eq!(xs, ys);
    assert_ne!(xs, zs);
    let mut d = TileRng::seed_from_u64(3);
    for _ in 0..100 {
        let v = d.next_below(6);
        assert!(v < 6);
    }
}
