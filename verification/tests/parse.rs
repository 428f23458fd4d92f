use wave_collapse::errors::ParseObjError;
use wave_collapse::fx::Fx;
use wave_collapse::wave_mesh::WaveMesh;

#[test]
fn parse_single_object_three_vertices_one_face() {
    let src = "o Tri\nv 1 0 0\nv 0 1 0\nv 0 0 1\nf 1 2 3\n";
    let lib = WaveMesh::from_obj_str(src).unwrap();
    assert_eq!(lib.len(), 1);
    let mesh = lib.get("Tri").unwrap();
    assert_eq!(mesh.vertexs.len(), 3);
    assert_eq!(mesh.indices, vec![0, 1, 2]);
}

#[test]
fn parse_shared_vertices_dedup_within_object() {
    // two faces share two position indices under the same palette index:
    // four vertices, not six, and the shared ids are reused
    let src = "o Quad\nv 0 0 0\nv 1 0 0\nv 1 1 0\nv 0 1 0\nf 1 2 3\nf 1 3 4\n";
    let lib = WaveMesh::from_obj_str(src).unwrap();
    let mesh = lib.get("Quad").unwrap();
    assert_eq!(mesh.vertexs.len(), 4);
    assert_eq!(mesh.indices, vec![0, 1, 2, 0, 2, 3]);
}

#[test]
fn parse_decimal_and_negative_coordinates() {
    let src = "o P\nv 0.5 -1.25 2\nf 1 1 1\n";
    let lib = WaveMesh::from_obj_str(src).unwrap();
    let mesh = lib.get("P").unwrap();
    assert_eq!(mesh.vertexs[0].position.x, Fx::from_raw(32768));
    assert_eq!(mesh.vertexs[0].position.y, Fx::from_raw(-81920));
    assert_eq!(mesh.vertexs[0].position.z, Fx::from_raw(131072));
}

#[test]
fn parse_usemtl_selects_palette() {
    let src = "o P\nv 0 0 0\nusemtl 7\nf 1 1 1\n";
    let lib = WaveMesh::from_obj_str(src).unwrap();
    let mesh = lib.get("P").unwrap();
    assert_eq!(mesh.vertexs[0].uv, 7);
}

#[test]
fn parse_palette_change_splits_identical_positions() {
    // the same position under two palette indices is two distinct vertices
    let src = "o P\nv 0 0 0\nv 1 0 0\nv 0 1 0\nf 1 2 3\nusemtl 5\nf 1 2 3\n";
    let lib = WaveMesh::from_obj_str(src).unwrap();
    let mesh = lib.get("P").unwrap();
    assert_eq!(mesh.vertexs.len(), 6);
    assert_eq!(mesh.indices, vec![0, 1, 2, 3, 4, 5]);
}

#[test]
fn parse_face_slash_subindices_ignored() {
    let src = "o P\nv 0 0 0\nv 1 0 0\nv 0 1 0\nf 1/4/5 2/9 3/1\n";
    let lib = WaveMesh::from_obj_str(src).unwrap();
    let mesh = lib.get("P").unwrap();
    assert_eq!(mesh.vertexs.len(), 3);
    assert_eq!(mesh.indices, vec![0, 1, 2]);
}

#[test]
fn parse_ignored_directives_and_comments() {
    let src = "# a comment\nmtllib x.mtl\no P\nv 0 0 0\nvt 0 0\nvn 0 1 0\ns off\nl 1 2\nf 1 1 1\n";
    let lib = WaveMesh::from_obj_str(src).unwrap();
    assert_eq!(lib.len(), 1);
}

#[test]
fn parse_content_before_first_object_is_discarded() {
    // geometry before the first object directive accumulates but is never
    // finalized; the positions remain referencable afterwards
    let src = "v 1 2 3\no P\nv 0 0 0\nf 1 2 2\n";
    let lib = WaveMesh::from_obj_str(src).unwrap();
    assert_eq!(lib.len(), 1);
    let mesh = lib.get("P").unwrap();
    // face references position 1, which was seen before the object opened
    assert_eq!(mesh.vertexs[0].position.x, Fx::from_raw(65536));
    assert_eq!(mesh.vertexs.len(), 2);
}

#[test]
fn parse_second_object_replaces_same_name() {
    let src = "o P\nv 0 0 0\nf 1 1 1\no P\nf 1 1 1\nf 1 1 1\n";
    let lib = WaveMesh::from_obj_str(src).unwrap();
    assert_eq!(lib.len(), 1);
    let mesh = lib.get("P").unwrap();
    assert_eq!(mesh.indices.len(), 6);
}

#[test]
fn parse_unknown_token_is_reported_with_line() {
    let src = "o P\nwobble 1 2\n";
    let err = WaveMesh::from_obj_str(src).unwrap_err();
    assert!(matches!(err, ParseObjError::UnknownSymbol(w, 2) if w == "wobble"));
}

#[test]
fn parse_empty_line_is_unknown_token() {
    let src = "o P\n\nv 0 0 0\n";
    let err = WaveMesh::from_obj_str(src).unwrap_err();
    assert!(matches!(err, ParseObjError::UnknownSymbol(w, 2) if w.is_empty()));
}

#[test]
fn parse_missing_vertex_field_is_reported() {
    let src = "o P\nv 1 2\n";
    let err = WaveMesh::from_obj_str(src).unwrap_err();
    assert!(matches!(
        err,
        ParseObjError::ExpectedSymbol { expect: "Vertex z", line: 2 }
    ));
}

#[test]
fn parse_bad_vertex_number_is_reported() {
    let src = "o P\nv 1 x 2\n";
    let err = WaveMesh::from_obj_str(src).unwrap_err();
    assert!(matches!(err, ParseObjError::FailedToParse("Vertex y", 2)));
}

#[test]
fn parse_palette_overflow_is_reported() {
    let src = "o P\nusemtl 256\n";
    let err = WaveMesh::from_obj_str(src).unwrap_err();
    assert!(matches!(err, ParseObjError::FailedToParseInt(2)));
}

#[test]
fn parse_missing_palette_field_is_reported() {
    let src = "o P\nusemtl\n";
    let err = WaveMesh::from_obj_str(src).unwrap_err();
    assert!(matches!(
        err,
        ParseObjError::ExpectedSymbol { expect: "Color", line: 2 }
    ));
}

#[test]
fn parse_missing_face_field_is_reported() {
    let src = "o P\nv 0 0 0\nf 1 1\n";
    let err = WaveMesh::from_obj_str(src).unwrap_err();
    assert!(matches!(
        err,
        ParseObjError::ExpectedSymbol { expect: "Face Index 2", line: 3 }
    ));
}

#[test]
fn parse_face_index_out_of_range_is_reported() {
    let src = "o P\nv 0 0 0\nf 1 2 1\n";
    let err = WaveMesh::from_obj_str(src).unwrap_err();
    assert!(matches!(err, ParseObjError::FaceIndexOutOfRange(2, 3)));
}

#[test]
fn parse_object_without_name_is_reported() {
    let src = "o\n";
    let err = WaveMesh::from_obj_str(src).unwrap_err();
    assert!(matches!(err, ParseObjError::NoName(1)));
}

#[test]
fn parse_empty_input_has_no_meshes() {
    let err = WaveMesh::from_obj_str("").unwrap_err();
    assert!(matches!(err, ParseObjError::NoMeshs));
}

#[test]
fn parse_windows_line_endings() {
    let src = "o P\r\nv 0 0 0\r\nf 1 1 1\r\n";
    let lib = WaveMesh::from_obj_str(src).unwrap();
    assert_eq!(lib.len(), 1);
    assert!(lib.get("P").is_some());
}

#[test]
fn parse_final_line_without_newline_keeps_carriage_return() {
    // only the two-character ending counts as one: a trailing carriage
    // return on an unterminated final line stays part of the line
    let src = "o P\nv 0 0 0\nf 1 1 1\no Q\r";
    let lib = WaveMesh::from_obj_str(src).unwrap();
    assert!(lib.get("Q").is_none());
    assert!(lib.get("Q\r").is_some());
    let terminated = "o P\nv 0 0 0\nf 1 1 1\no Q\r\n";
    let lib2 = WaveMesh::from_obj_str(terminated).unwrap();
    assert!(lib2.get("Q").is_some());
}
