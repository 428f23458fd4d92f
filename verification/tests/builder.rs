use wave_collapse::builder::WaveBuilder;
use wave_collapse::fx::Fx;
use wave_collapse::hex_trig::HexTrig;
use wave_collapse::vector::RVec3;
use wave_collapse::vertex::palette_cell;
use wave_collapse::vertex::Vertex;
use wave_collapse::wave_mesh::WaveMesh;
use wave_collapse::wave_palate::WavePalate;

fn fx(raw: i64) -> Fx {
    Fx::from_raw(raw)
}

fn vx(x: i64, y: i64, z: i64, uv: u8) -> Vertex {
    Vertex::new(RVec3::new(fx(x), fx(y), fx(z)), uv)
}

fn triangle() -> WaveMesh {
    WaveMesh {
        vertexs: vec![vx(0, 0, 0, 0), vx(65536, 0, 0, 0), vx(0, 0, 65536, 0)],
        indices: vec![0, 1, 2],
    }
}

#[test]
fn bake_twice_same_offset_fuses_vertices() {
    // full overlap: the second bake adds no vertex but appends all indices
    let mesh = triangle();
    let offset = RVec3::new(fx(65536), fx(0), fx(0));
    let mut b = WaveBuilder::new();
    b.bake(offset, &mesh).unwrap();
    let after_one = b.vertex_len();
    b.bake(offset, &mesh).unwrap();
    assert_eq!(b.vertex_len(), after_one);
    assert_eq!(b.vertex_len(), 3);
    assert_eq!(b.indices_len(), 6);
}

#[test]
fn bake_adjacent_offsets_share_border_vertices() {
    // two placements sharing one corner fuse exactly there
    let mesh = triangle();
    let mut b = WaveBuilder::new();
    b.bake(RVec3::new(fx(0), fx(0), fx(0)), &mesh).unwrap();
    // shifting by one unit along x makes the new first vertex land on the
    // old second one
    b.bake(RVec3::new(fx(65536), fx(0), fx(0)), &mesh).unwrap();
    assert_eq!(b.vertex_len(), 5);
    assert_eq!(b.indices_len(), 6);
}

#[test]
fn add_twice_same_offset_never_fuses() {
    let mesh = triangle();
    let offset = RVec3::new(fx(0), fx(0), fx(0));
    let mut b = WaveBuilder::new();
    b.add(offset, &mesh).unwrap();
    b.add(offset, &mesh).unwrap();
    assert_eq!(b.vertex_len(), 6);
    assert_eq!(b.indices_len(), 6);
    let (_, indices) = b.extract_fixed();
    assert_eq!(indices, vec![0, 1, 2, 3, 4, 5]);
}

#[test]
fn add_does_not_feed_the_dedup_registry() {
    // a vertex appended by add is not reused by a later bake
    let mesh = triangle();
    let offset = RVec3::new(fx(0), fx(0), fx(0));
    let mut b = WaveBuilder::new();
    b.add(offset, &mesh).unwrap();
    b.bake(offset, &mesh).unwrap();
    assert_eq!(b.vertex_len(), 6);
}

#[test]
fn clear_resets_for_reuse() {
    let mesh = triangle();
    let offset = RVec3::new(fx(0), fx(0), fx(0));
    let mut b = WaveBuilder::new();
    b.bake(offset, &mesh).unwrap();
    b.clear();
    assert_eq!(b.vertex_len(), 0);
    assert_eq!(b.indices_len(), 0);
    b.bake(offset, &mesh).unwrap();
    assert_eq!(b.vertex_len(), 3);
}

#[test]
fn extract_keeps_exact_fixed_point_data() {
    let mesh = triangle();
    let offset = RVec3::new(fx(131072), fx(65536), fx(0));
    let mut b = WaveBuilder::new();
    b.bake(offset, &mesh).unwrap();
    let (verts, indices) = b.extract_fixed();
    assert_eq!(verts[0], vx(131072, 65536, 0, 0));
    assert_eq!(verts[1], vx(196608, 65536, 0, 0));
    assert_eq!(indices, vec![0, 1, 2]);
}

#[test]
fn rotation_inverse_returns_unit_mesh() {
    // rotating by slot k and then by slot (6 - k) % 6 returns every vertex
    // to its original position, for every k
    let mesh = WaveMesh {
        vertexs: vec![
            vx(65536, 12345, 0, 0),
            vx(0, 7, 65536, 1),
            vx(-65536, -3, 65536, 2),
            vx(65536, 0, -65536, 3),
            vx(0, 99, 0, 4),
        ],
        indices: vec![0, 1, 2, 2, 3, 4],
    };
    for k in 0..6usize {
        let mut m = mesh.clone();
        m.rotate(Fx::rotations_sin(k), Fx::rotations_cos(k));
        let back = (6 - k) % 6;
        m.rotate(Fx::rotations_sin(back), Fx::rotations_cos(back));
        assert_eq!(m.vertexs, mesh.vertexs);
        assert_eq!(m.indices, mesh.indices);
    }
}

#[test]
fn rotation_slot_one_exact_values() {
    // one unit along x rotated one slot lands on (cos 60, sin 60) exactly
    let mut m = WaveMesh { vertexs: vec![vx(65536, 0, 0, 0)], indices: vec![] };
    m.rotate(Fx::rotations_sin(1), Fx::rotations_cos(1));
    assert_eq!(m.vertexs[0].position.x, fx(32768));
    assert_eq!(m.vertexs[0].position.z, fx(56756));
}

#[test]
fn scale_y_and_offset_are_exact() {
    let mut m = WaveMesh { vertexs: vec![vx(65536, 65536, 0, 0)], indices: vec![] };
    m.scale_y(fx(32768));
    assert_eq!(m.vertexs[0].position.y, fx(32768));
    m.offset(RVec3::new(fx(1), fx(2), fx(3)));
    assert_eq!(m.vertexs[0].position, RVec3::new(fx(65537), fx(32770), fx(3)));
}

#[test]
fn fixed_point_arithmetic_is_exact() {
    assert_eq!(fx(32768).add(fx(32768)), Fx::one());
    assert_eq!(fx(98304).sub(Fx::one()), fx(32768));
    // multiplication truncates toward zero on both signs
    assert_eq!(fx(98304).mul(fx(32768)), fx(49152));
    assert_eq!(fx(3).mul(fx(32768)), fx(1));
    assert_eq!(fx(-3).mul(fx(32768)), fx(-1));
    assert_eq!(Fx::zero().mul(fx(12345)), fx(0));
    assert_eq!(fx(7).max(fx(9)), fx(9));
    // division truncates toward zero on both signs
    assert_eq!(fx(98304).div(fx(32768)), fx(196608));
    assert_eq!(fx(-98304).div(fx(32768)), fx(-196608));
    assert_eq!(fx(65536).div(fx(196608)), fx(21845));
    assert_eq!(fx(-65536).div(fx(196608)), fx(-21845));
}

#[test]
fn vector_arithmetic_is_componentwise() {
    let a = RVec3::new(fx(65536), fx(131072), fx(-65536));
    let b = RVec3::new(fx(32768), fx(32768), fx(32768));
    assert_eq!(a.add(b), RVec3::new(fx(98304), fx(163840), fx(-32768)));
    assert_eq!(a.sub(b), RVec3::new(fx(32768), fx(98304), fx(-98304)));
    assert_eq!(a.mul(fx(32768)), RVec3::new(fx(32768), fx(65536), fx(-32768)));
    assert_eq!(a.div(fx(32768)), RVec3::new(fx(131072), fx(262144), fx(-131072)));
    assert_eq!(RVec3::default(), RVec3::new(fx(0), fx(0), fx(0)));
}

#[test]
fn palette_cell_splits_atlas_row_and_column() {
    assert_eq!(palette_cell(0), (0, 0));
    assert_eq!(palette_cell(17), (1, 1));
    assert_eq!(palette_cell(255), (15, 15));
}

#[test]
fn palate_table_rewrites_in_range_indices() {
    let table: Vec<u8> = vec![9, 8, 7];
    let mut v: u8 = 1;
    table.apply(&mut v);
    assert_eq!(v, 8);
    let mut w: u8 = 5;
    table.apply(&mut w);
    assert_eq!(w, 5);
}
