//! The mesh-template text parser.
//!
//! The format is line oriented: `o <name>` opens a named object, `v x y z`
//! records a position, `f i0 i1 i2` emits a triangle over 1-based position
//! indices (slash-separated sub-indices beyond the first are ignored),
//! `usemtl <int>` selects the palette index, and `#`, `vt`, `s`, `l`,
//! `mtllib`, `vn` lines are skipped.  Any other leading token is a hard
//! error naming the token and its 1-based line.
//!
//! Geometry that appears before the first `o` line is accumulated but never
//! finalized, so it is discarded; this mirrors the finalize-on-`o` logic and
//! is deliberately kept rather than silently corrected.

use crate::errors::ParseObjError;
use crate::fx::Fx;
use crate::mesh_library::spec_lib_insert;
use crate::mesh_library::MeshLibrary;
use crate::mesh_library::LIB_COORD_MAX;
use crate::text::parse_fx;
use crate::text::parse_u8;
use crate::text::parse_usize;
use crate::text::spec_digits_val;
use crate::text::spec_is_digits;
use crate::text::spec_parse_fx;
use crate::text::spec_split;
use crate::text::split_str;
use crate::text::str_eq;
use crate::vector::RVec3;
use crate::vertex::Vertex;
use crate::wave_mesh::spec_coords_bounded;
use crate::wave_mesh::spec_indices_valid;
use crate::wave_mesh::MeshView;
use crate::wave_mesh::WaveMesh;
use vstd::prelude::*;
use vstd::string::StrSliceExecFns;
use vstd::string::StringExecFns;

verus! {

/// The parser state between lines: finalized meshes, the open object's
/// in-progress mesh and name, the selected palette index, every position
/// seen since the start of the input, and whether an object was opened yet.
#[verifier::ext_equal]
pub struct ObjParseState {
    pub meshes: Seq<(Seq<char>, MeshView)>,
    pub current: MeshView,
    pub color: u8,
    pub name: Seq<char>,
    pub first: bool,
    pub points: Seq<RVec3>,
}

/// Abstract parse failure, mirrored by the exec `ParseObjError` values.
pub enum ObjParseErr {
    NoMeshs,
    NoName(int),
    UnknownSymbol(Seq<char>, int),
    ExpectedSymbol(Seq<char>, int),
    FailedToParseInt(int),
    FailedToParse(Seq<char>, int),
    FaceIndexOutOfRange(int, int),
}

/// The exec error value carries exactly the abstract failure.
pub open spec fn err_matches(e: ParseObjError, s: ObjParseErr) -> bool {
    match (e, s) {
        (ParseObjError::NoMeshs, ObjParseErr::NoMeshs) => true,
        (ParseObjError::NoName(l), ObjParseErr::NoName(sl)) => l == sl,
        (ParseObjError::UnknownSymbol(w, l), ObjParseErr::UnknownSymbol(sw, sl)) => w@ == sw && l
            == sl,
        (
            ParseObjError::ExpectedSymbol { expect, line },
            ObjParseErr::ExpectedSymbol(se, sl),
        ) => expect@ == se && line == sl,
        (ParseObjError::FailedToParseInt(l), ObjParseErr::FailedToParseInt(sl)) => l == sl,
        (ParseObjError::FailedToParse(f, l), ObjParseErr::FailedToParse(sf, sl)) => f@ == sf && l
            == sl,
        (
            ParseObjError::FaceIndexOutOfRange(ix, l),
            ObjParseErr::FaceIndexOutOfRange(si, sl),
        ) => ix == si && l == sl,
        _ => false,
    }
}

/// A line with a trailing carriage return loses it.
pub open spec fn spec_strip_cr(l: Seq<char>) -> Seq<char> {
    if l.len() > 0 && l.last() == '\r' {
        l.drop_last()
    } else {
        l
    }
}

/// The input's lines: split on newline, a final empty segment dropped, and
/// each newline-terminated line's trailing carriage return removed.  A
/// final line without a newline keeps a trailing carriage return, since
/// only the two-character ending counts as one.
pub open spec fn spec_lines(s: Seq<char>) -> Seq<Seq<char>> {
    let parts = spec_split(s, '\n');
    if parts.last().len() == 0 {
        parts.drop_last().map(|i: int, l: Seq<char>| spec_strip_cr(l))
    } else {
        parts.map(
            |i: int, l: Seq<char>|
                if i < parts.len() - 1 {
                    spec_strip_cr(l)
                } else {
                    l
                },
        )
    }
}

/// First position of `v` in the vertex list, scanning from `i`.
pub open spec fn spec_vindex(vs: Seq<Vertex>, v: Vertex, i: int) -> Option<int>
    decreases vs.len() - i,
{
    if i < 0 || i >= vs.len() {
        None
    } else if vs[i] == v {
        Some(i)
    } else {
        spec_vindex(vs, v, i + 1)
    }
}

/// Intra-object deduplicating face-vertex insertion: the first occurrence
/// assigns an ascending id, a repeated identical vertex reuses its id.
pub open spec fn spec_add_face_vertex(m: MeshView, v: Vertex) -> MeshView {
    match spec_vindex(m.vertexs, v, 0) {
        Some(j) => MeshView { vertexs: m.vertexs, indices: m.indices.push(j as u32) },
        None => MeshView {
            vertexs: m.vertexs.push(v),
            indices: m.indices.push(m.vertexs.len() as u32),
        },
    }
}

/// A face reference token's position index: the digits before the first
/// slash, when they parse as a machine-sized integer.
pub open spec fn spec_face_index(tok: Seq<char>) -> Option<int> {
    let first = spec_split(tok, '/')[0];
    if spec_is_digits(first) && spec_digits_val(first) <= usize::MAX {
        Some(spec_digits_val(first))
    } else {
        None
    }
}

/// Parse one face reference token: the expected-symbol error when the word
/// is missing, the integer error when its first segment is not a number.
pub open spec fn spec_face_tok(
    words: Seq<Seq<char>>,
    t: int,
    num: int,
    expect: Seq<char>,
) -> Result<int, ObjParseErr> {
    if words.len() <= t {
        Err(ObjParseErr::ExpectedSymbol(expect, num))
    } else {
        match spec_face_index(words[t]) {
            None => Err(ObjParseErr::FailedToParseInt(num)),
            Some(ix) => Ok(ix),
        }
    }
}

/// Range-check one parsed face reference against the accumulated positions
/// and insert the referenced vertex with intra-object deduplication.
pub open spec fn spec_face_insert(st: ObjParseState, ix: int, num: int) -> Result<
    ObjParseState,
    ObjParseErr,
> {
    if ix == 0 || ix > st.points.len() {
        Err(ObjParseErr::FaceIndexOutOfRange(ix, num))
    } else {
        Ok(
            ObjParseState {
                current: spec_add_face_vertex(
                    st.current,
                    Vertex { position: st.points[ix - 1], uv: st.color },
                ),
                ..st
            },
        )
    }
}

/// A face line: parse the three position indices first, then range-check
/// and insert each referenced vertex in order.
pub open spec fn spec_face_step(st: ObjParseState, words: Seq<Seq<char>>, num: int) -> Result<
    ObjParseState,
    ObjParseErr,
> {
    match spec_face_tok(words, 1, num, "Face Index 0"@) {
        Err(e) => Err(e),
        Ok(ix0) => match spec_face_tok(words, 2, num, "Face Index 1"@) {
            Err(e) => Err(e),
            Ok(ix1) => match spec_face_tok(words, 3, num, "Face Index 2"@) {
                Err(e) => Err(e),
                Ok(ix2) => match spec_face_insert(st, ix0, num) {
                    Err(e) => Err(e),
                    Ok(st0) => match spec_face_insert(st0, ix1, num) {
                        Err(e) => Err(e),
                        Ok(st1) => spec_face_insert(st1, ix2, num),
                    },
                },
            },
        },
    }
}

/// A vertex-position line: three fixed-point components, each with its own
/// missing-field and parse-failure errors.
pub open spec fn spec_vertex_step(st: ObjParseState, words: Seq<Seq<char>>, num: int) -> Result<
    ObjParseState,
    ObjParseErr,
> {
    if words.len() < 2 {
        Err(ObjParseErr::ExpectedSymbol("Vertex x"@, num))
    } else if spec_parse_fx(words[1]) is None {
        Err(ObjParseErr::FailedToParse("Vertex x"@, num))
    } else if words.len() < 3 {
        Err(ObjParseErr::ExpectedSymbol("Vertex y"@, num))
    } else if spec_parse_fx(words[2]) is None {
        Err(ObjParseErr::FailedToParse("Vertex y"@, num))
    } else if words.len() < 4 {
        Err(ObjParseErr::ExpectedSymbol("Vertex z"@, num))
    } else if spec_parse_fx(words[3]) is None {
        Err(ObjParseErr::FailedToParse("Vertex z"@, num))
    } else {
        Ok(
            ObjParseState {
                points: st.points.push(
                    RVec3 {
                        x: Fx { raw: spec_parse_fx(words[1]).unwrap() as i64 },
                        y: Fx { raw: spec_parse_fx(words[2]).unwrap() as i64 },
                        z: Fx { raw: spec_parse_fx(words[3]).unwrap() as i64 },
                    },
                ),
                ..st
            },
        )
    }
}

/// One line of input, with its 1-based number.
pub open spec fn spec_obj_line_step(st: ObjParseState, line: Seq<char>, num: int) -> Result<
    ObjParseState,
    ObjParseErr,
> {
    let words = spec_split(line, ' ');
    let w = words[0];
    if w == "#"@ || w == "vt"@ || w == "s"@ || w == "l"@ || w == "mtllib"@ || w == "vn"@ {
        Ok(st)
    } else if w == "usemtl"@ {
        if words.len() < 2 {
            Err(ObjParseErr::ExpectedSymbol("Color"@, num))
        } else if spec_is_digits(words[1]) && spec_digits_val(words[1]) <= 255 {
            Ok(ObjParseState { color: spec_digits_val(words[1]) as u8, ..st })
        } else {
            Err(ObjParseErr::FailedToParseInt(num))
        }
    } else if w == "f"@ {
        spec_face_step(st, words, num)
    } else if w == "v"@ {
        spec_vertex_step(st, words, num)
    } else if w == "o"@ {
        if words.len() < 2 {
            Err(ObjParseErr::NoName(num))
        } else {
            Ok(
                ObjParseState {
                    meshes: if st.first {
                        st.meshes
                    } else {
                        spec_lib_insert(st.meshes, st.name, st.current)
                    },
                    current: MeshView { vertexs: Seq::empty(), indices: Seq::empty() },
                    color: st.color,
                    name: words[1],
                    first: false,
                    points: st.points,
                },
            )
        }
    } else {
        Err(ObjParseErr::UnknownSymbol(w, num))
    }
}

/// The state before any line.
pub open spec fn spec_obj_init() -> ObjParseState {
    ObjParseState {
        meshes: Seq::empty(),
        current: MeshView { vertexs: Seq::empty(), indices: Seq::empty() },
        color: 0,
        name: Seq::empty(),
        first: true,
        points: Seq::empty(),
    }
}

/// End of input: finalize the open object (when one was ever opened) and
/// fail when the result holds no mesh at all.
pub open spec fn spec_obj_finish(st: ObjParseState) -> Result<
    Seq<(Seq<char>, MeshView)>,
    ObjParseErr,
> {
    let m = if st.first {
        st.meshes
    } else {
        spec_lib_insert(st.meshes, st.name, st.current)
    };
    if m.len() == 0 {
        Err(ObjParseErr::NoMeshs)
    } else {
        Ok(m)
    }
}

/// Run the parser from state `st` over `lines[i..]`.
pub open spec fn spec_obj_parse_from(st: ObjParseState, lines: Seq<Seq<char>>, i: int) -> Result<
    Seq<(Seq<char>, MeshView)>,
    ObjParseErr,
>
    decreases lines.len() - i,
{
    if i < 0 || i >= lines.len() {
        spec_obj_finish(st)
    } else {
        match spec_obj_line_step(st, lines[i], i + 1) {
            Ok(st2) => spec_obj_parse_from(st2, lines, i + 1),
            Err(e) => Err(e),
        }
    }
}

/// What parsing the whole input yields: the name-to-mesh mapping, or the
/// first failure.
pub open spec fn spec_obj_parse(input: Seq<char>) -> Result<
    Seq<(Seq<char>, MeshView)>,
    ObjParseErr,
> {
    spec_obj_parse_from(spec_obj_init(), spec_lines(input), 0)
}

/// Splitting cannot yield more segments than characters plus one.
pub proof fn lemma_split_count(s: Seq<char>, sep: char)
    ensures
        spec_split(s, sep).len() <= s.len() + 1,
    decreases s.len(),
{
    if s.len() > 0 {
        lemma_split_count(s.drop_first(), sep);
    }
}

/// The input's lines as owned strings.
fn split_lines(s: &str) -> (r: Vec<String>)
    ensures
        r@.map(|i: int, l: String| l@) == spec_lines(s@),
        forall|i: int| 0 <= i < r@.len() ==> (#[trigger] r@[i])@.len() <= s@.len(),
        r@.len() <= s@.len() + 1,
{
    let mut parts = split_str(s, '\n');
    proof {
        crate::text::lemma_split_len(s@, '\n');
        lemma_split_count(s@, '\n');
        assert(parts@.len() == spec_split(s@, '\n').len());
    }
    let ghost whole = spec_split(s@, '\n');
    let last_ix = parts.len() - 1;
    let terminated = parts[last_ix].as_str().unicode_len() == 0;
    if terminated {
        let _dropped = parts.pop();
        proof {
            assert(parts@.map(|i: int, l: String| l@) =~~= whole.drop_last());
        }
    } else {
        proof {
            assert(parts@.map(|i: int, l: String| l@) =~~= whole);
        }
    }
    let ghost trimmed = parts@.map(|i: int, l: String| l@);
    let ghost expected = spec_lines(s@);
    proof {
        assert(expected.len() == trimmed.len());
        assert forall|k: int| 0 <= k < trimmed.len() implies expected[k] == if terminated || k
            < trimmed.len() - 1 {
            spec_strip_cr(trimmed[k])
        } else {
            trimmed[k]
        } by {}
    }
    let mut out: Vec<String> = Vec::new();
    let m = parts.len();
    let mut i: usize = 0;
    while i < m
        invariant
            m == parts@.len(),
            trimmed == parts@.map(|k: int, l: String| l@),
            trimmed.len() == m,
            expected.len() == m,
            i <= m,
            forall|k: int| 0 <= k < m ==> (#[trigger] trimmed[k]).len() <= s@.len(),
            forall|k: int|
                0 <= k < m ==> expected[k] == if terminated || k < m - 1 {
                    spec_strip_cr(#[trigger] trimmed[k])
                } else {
                    trimmed[k]
                },
            out@.map(|k: int, l: String| l@) =~~= expected.take(i as int),
            forall|k: int| 0 <= k < out@.len() ==> (#[trigger] out@[k])@.len() <= s@.len(),
        decreases m - i,
    {
        let p = &parts[i];
        proof {
            assert(p@ == trimmed[i as int]);
            assert(expected[i as int] == if terminated || i < m - 1 {
                spec_strip_cr(trimmed[i as int])
            } else {
                trimmed[i as int]
            });
        }
        let nlen = p.as_str().unicode_len();
        let keep_cr = !terminated && i + 1 == m;
        let stripped: String = if !keep_cr && nlen > 0 && p.as_str().get_char(nlen - 1) == '\r' {
            let t = String::from_str(p.as_str().substring_char(0, nlen - 1));
            proof {
                assert(t@ =~= trimmed[i as int].drop_last());
            }
            t
        } else {
            p.clone()
        };
        proof {
            if keep_cr {
                assert(stripped@ == trimmed[i as int]);
            } else {
                assert(stripped@ == spec_strip_cr(trimmed[i as int]));
            }
            assert(stripped@ == expected[i as int]);
            assert(stripped@.len() <= s@.len());
            assert((out@.push(stripped)).map(|k: int, l: String| l@) =~~= out@.map(
                |k: int, l: String| l@,
            ).push(stripped@));
            assert(expected.take(i + 1).drop_last() =~= expected.take(i as int));
        }
        out.push(stripped);
        i = i + 1;
    }
    proof {
        assert(expected.take(m as int) =~= expected);
        assert(out@.map(|k: int, l: String| l@) =~~= spec_lines(s@));
    }
    out
}

/// A found position carries the vertex.
pub proof fn lemma_vindex_found(vs: Seq<Vertex>, v: Vertex, i: int)
    requires
        0 <= i,
        spec_vindex(vs, v, i) is Some,
    ensures
        ({
            let j = spec_vindex(vs, v, i).unwrap();
            &&& i <= j < vs.len()
            &&& vs[j] == v
        }),
    decreases vs.len() - i,
{
    if i < vs.len() && vs[i] != v {
        lemma_vindex_found(vs, v, i + 1);
    }
}

/// Deduplicating face-vertex insertion keeps the mesh well formed and its
/// coordinate bound, grows the vertex list by at most one, and appends
/// exactly one index.
pub proof fn lemma_add_face_vertex_wf(m: MeshView, v: Vertex, b: int)
    requires
        spec_indices_valid(m.vertexs, m.indices),
        spec_coords_bounded(m.vertexs, b),
        v.position.bounded(b),
        m.vertexs.len() < 0xFFFF_FFFF,
    ensures
        ({
            let m2 = spec_add_face_vertex(m, v);
            &&& spec_indices_valid(m2.vertexs, m2.indices)
            &&& spec_coords_bounded(m2.vertexs, b)
            &&& m.vertexs.len() <= m2.vertexs.len() <= m.vertexs.len() + 1
            &&& m2.indices.len() == m.indices.len() + 1
        }),
{
    match spec_vindex(m.vertexs, v, 0) {
        Some(j) => {
            lemma_vindex_found(m.vertexs, v, 0);
        },
        None => {},
    }
}

/// First position of `v` among the vertices, if any.
fn find_vertex(vs: &Vec<Vertex>, v: Vertex) -> (r: Option<usize>)
    ensures
        match r {
            Some(j) => spec_vindex(vs@, v, 0) == Some(j as int) && j < vs@.len(),
            None => spec_vindex(vs@, v, 0) is None,
        },
{
    let n = vs.len();
    let mut i: usize = 0;
    while i < n
        invariant
            n == vs@.len(),
            i <= n,
            spec_vindex(vs@, v, 0) == spec_vindex(vs@, v, i as int),
        decreases n - i,
    {
        if vs[i] == v {
            return Some(i);
        }
        i = i + 1;
    }
    None
}

/// Insert one face vertex into the in-progress mesh with intra-object
/// deduplication.
fn add_face_vertex(m: &mut WaveMesh, v: Vertex)
    requires
        old(m)@.vertexs.len() < 0xFFFF_FFFF,
    ensures
        final(m)@ == spec_add_face_vertex(old(m)@, v),
{
    match find_vertex(&m.vertexs, v) {
        Some(j) => {
            m.indices.push(j as u32);
        },
        None => {
            let id = m.vertexs.len() as u32;
            m.vertexs.push(v);
            m.indices.push(id);
        },
    }
}

/// Parse face reference `t` of a face line: the digits before the first
/// slash of the word, as a position index.
fn face_tok(words: &Vec<String>, t: usize, num: usize, expect: &'static str) -> (r: Result<
    usize,
    ParseObjError,
>)
    ensures
        ({
            let sr = spec_face_tok(
                words@.map(|k: int, x: String| x@),
                t as int,
                num as int,
                expect@,
            );
            match r {
                Ok(ix) => sr == Ok::<int, ObjParseErr>(ix as int),
                Err(e) => sr is Err && err_matches(e, sr->Err_0),
            }
        }),
{
    if words.len() <= t {
        return Err(ParseObjError::ExpectedSymbol { expect, line: num });
    }
    let parts = split_str(words[t].as_str(), '/');
    proof {
        crate::text::lemma_split_len(words@[t as int]@, '/');
        assert(parts@.map(|k: int, x: String| x@)[0] == spec_split(words@[t as int]@, '/')[0]);
    }
    match parse_usize(parts[0].as_str()) {
        Some(ix) => Ok(ix),
        None => Err(ParseObjError::FailedToParseInt(num)),
    }
}

impl WaveMesh {
    /// Parse a whole mesh-template text into its name-to-mesh mapping.
    ///
    /// The result is exactly `spec_obj_parse` of the input: every named
    /// object with its deduplicated vertices and triangle indices, or the
    /// first failure with its 1-based line number.  The input is bounded so
    /// that vertex ids of the parsed meshes always fit their 32-bit
    /// representation.
    pub fn from_obj_str(input: &str) -> (r: Result<MeshLibrary, ParseObjError>)
        requires
            input@.len() <= 100_000_000,
        ensures
            match r {
                Ok(lib) => spec_obj_parse(input@) is Ok && lib@ == spec_obj_parse(input@)->Ok_0
                    && lib.wf(),
                Err(e) => spec_obj_parse(input@) is Err && err_matches(
                    e,
                    spec_obj_parse(input@)->Err_0,
                ),
            },
    {
        let lines = split_lines(input);
        let ghost lseq = lines@.map(|k: int, l: String| l@);
        let mut lib = MeshLibrary::new();
        let mut current = WaveMesh::new();
        let mut color: u8 = 0;
        let mut name = String::new();
        let mut first = true;
        let mut points: Vec<RVec3> = Vec::new();
        let n = lines.len();
        let mut i: usize = 0;
        proof {
            assert(ObjParseState {
                meshes: lib@,
                current: current@,
                color: color,
                name: name@,
                first: first,
                points: points@,
            } =~= spec_obj_init());
        }
        while i < n
            invariant
                n == lines@.len(),
                lseq == lines@.map(|k: int, l: String| l@),
                lseq.len() == n,
                n <= 100_000_001,
                i <= n,
                lib.wf(),
                spec_indices_valid(current@.vertexs, current@.indices),
                spec_coords_bounded(current@.vertexs, LIB_COORD_MAX as int),
                current@.vertexs.len() <= 3 * i,
                points@.len() <= i,
                forall|k: int|
                    0 <= k < points@.len() ==> (#[trigger] points@[k]).bounded(LIB_COORD_MAX as int),
                spec_obj_parse(input@) == spec_obj_parse_from(
                    ObjParseState {
                        meshes: lib@,
                        current: current@,
                        color: color,
                        name: name@,
                        first: first,
                        points: points@,
                    },
                    lseq,
                    i as int,
                ),
            decreases n - i,
        {
            let ghost st = ObjParseState {
                meshes: lib@,
                current: current@,
                color: color,
                name: name@,
                first: first,
                points: points@,
            };
            let num: usize = i + 1;
            let words = split_str(lines[i].as_str(), ' ');
            let ghost wseq = words@.map(|k: int, x: String| x@);
            proof {
                assert(lseq[i as int] == lines@[i as int]@);
                crate::text::lemma_split_len(lines@[i as int]@, ' ');
                assert(wseq[0] == words@[0]@);
            }
            let ghost sstep = spec_obj_line_step(st, lseq[i as int], num as int);
            if str_eq(words[0].as_str(), "#") || str_eq(words[0].as_str(), "vt") || str_eq(
                words[0].as_str(),
                "s",
            ) || str_eq(words[0].as_str(), "l") || str_eq(words[0].as_str(), "mtllib") || str_eq(
                words[0].as_str(),
                "vn",
            ) {
                proof {
                    assert(sstep == Ok::<ObjParseState, ObjParseErr>(st));
                }
            } else if str_eq(words[0].as_str(), "usemtl") {
                if words.len() < 2 {
                    proof {
                        assert(sstep is Err);
                    }
                    return Err(ParseObjError::ExpectedSymbol { expect: "Color", line: num });
                }
                proof {
                    assert(wseq[1] == words@[1]@);
                }
                match parse_u8(words[1].as_str()) {
                    Some(c) => {
                        color = c;
                    },
                    None => {
                        proof {
                            assert(sstep is Err);
                        }
                        return Err(ParseObjError::FailedToParseInt(num));
                    },
                }
            } else if str_eq(words[0].as_str(), "f") {
                let ix0 = match face_tok(&words, 1, num, "Face Index 0") {
                    Ok(v) => v,
                    Err(e) => {
                        proof {
                            assert(sstep is Err);
                        }
                        return Err(e);
                    },
                };
                let ix1 = match face_tok(&words, 2, num, "Face Index 1") {
                    Ok(v) => v,
                    Err(e) => {
                        proof {
                            assert(sstep is Err);
                        }
                        return Err(e);
                    },
                };
                let ix2 = match face_tok(&words, 3, num, "Face Index 2") {
                    Ok(v) => v,
                    Err(e) => {
                        proof {
                            assert(sstep is Err);
                        }
                        return Err(e);
                    },
                };
                if ix0 == 0 || ix0 > points.len() {
                    proof {
                        assert(sstep is Err);
                    }
                    return Err(ParseObjError::FaceIndexOutOfRange(ix0, num));
                }
                let v0 = Vertex { position: points[ix0 - 1], uv: color };
                proof {
                    lemma_add_face_vertex_wf(current@, v0, LIB_COORD_MAX as int);
                }
                add_face_vertex(&mut current, v0);
                if ix1 == 0 || ix1 > points.len() {
                    proof {
                        assert(sstep is Err);
                    }
                    return Err(ParseObjError::FaceIndexOutOfRange(ix1, num));
                }
                let v1 = Vertex { position: points[ix1 - 1], uv: color };
                proof {
                    lemma_add_face_vertex_wf(current@, v1, LIB_COORD_MAX as int);
                }
                add_face_vertex(&mut current, v1);
                if ix2 == 0 || ix2 > points.len() {
                    proof {
                        assert(sstep is Err);
                    }
                    return Err(ParseObjError::FaceIndexOutOfRange(ix2, num));
                }
                let v2 = Vertex { position: points[ix2 - 1], uv: color };
                proof {
                    lemma_add_face_vertex_wf(current@, v2, LIB_COORD_MAX as int);
                }
                add_face_vertex(&mut current, v2);
                proof {
                    assert(sstep matches Ok(st2) && st2.current == current@);
                }
            } else if str_eq(words[0].as_str(), "v") {
                if words.len() < 2 {
                    proof {
                        assert(sstep is Err);
                    }
                    return Err(ParseObjError::ExpectedSymbol { expect: "Vertex x", line: num });
                }
                proof {
                    assert(wseq[1] == words@[1]@);
                }
                let x = match parse_fx(words[1].as_str()) {
                    Some(v) => v,
                    None => {
                        proof {
                            assert(sstep is Err);
                        }
                        return Err(ParseObjError::FailedToParse("Vertex x", num));
                    },
                };
                if words.len() < 3 {
                    proof {
                        assert(sstep is Err);
                    }
                    return Err(ParseObjError::ExpectedSymbol { expect: "Vertex y", line: num });
                }
                proof {
                    assert(wseq[2] == words@[2]@);
                }
                let y = match parse_fx(words[2].as_str()) {
                    Some(v) => v,
                    None => {
                        proof {
                            assert(sstep is Err);
                        }
                        return Err(ParseObjError::FailedToParse("Vertex y", num));
                    },
                };
                if words.len() < 4 {
                    proof {
                        assert(sstep is Err);
                    }
                    return Err(ParseObjError::ExpectedSymbol { expect: "Vertex z", line: num });
                }
                proof {
                    assert(wseq[3] == words@[3]@);
                }
                let z = match parse_fx(words[3].as_str()) {
                    Some(v) => v,
                    None => {
                        proof {
                            assert(sstep is Err);
                        }
                        return Err(ParseObjError::FailedToParse("Vertex z", num));
                    },
                };
                points.push(RVec3 { x, y, z });
            } else if str_eq(words[0].as_str(), "o") {
                if words.len() < 2 {
                    proof {
                        assert(sstep is Err);
                    }
                    return Err(ParseObjError::NoName(num));
                }
                proof {
                    assert(wseq[1] == words@[1]@);
                }
                if !first {
                    lib.insert(name, current);
                } else {
                    first = false;
                }
                current = WaveMesh::new();
                name = words[1].clone();
            } else {
                proof {
                    assert(sstep == Err::<ObjParseState, ObjParseErr>(ObjParseErr::UnknownSymbol(
                        wseq[0],
                        num as int,
                    )));
                }
                return Err(ParseObjError::UnknownSymbol(words[0].clone(), num));
            }
            i = i + 1;
            proof {
                assert(sstep matches Ok(st2) && st2 =~= ObjParseState {
                    meshes: lib@,
                    current: current@,
                    color: color,
                    name: name@,
                    first: first,
                    points: points@,
                });
            }
        }
        let ghost st_end = ObjParseState {
            meshes: lib@,
            current: current@,
            color: color,
            name: name@,
            first: first,
            points: points@,
        };
        proof {
            assert(spec_obj_parse(input@) == spec_obj_finish(st_end));
        }
        if !first {
            lib.insert(name, current);
        }
        proof {
            assert(lib@ == if st_end.first {
                st_end.meshes
            } else {
                spec_lib_insert(st_end.meshes, st_end.name, st_end.current)
            });
        }
        if lib.len() == 0 {
            return Err(ParseObjError::NoMeshs);
        }
        Ok(lib)
    }
}

} // verus!
