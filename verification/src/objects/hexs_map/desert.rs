//! The procedurally decorated tile type: a desert bakes its core variant
//! and then a seeded arrangement of cacti.  The same per-tile seed always
//! reproduces identical geometry, independent of build order.

use crate::builder::spec_bake;
use crate::builder::BuilderView;
use crate::builder::WaveBuilder;
use crate::errors::BakeError;
use crate::fx::Fx;
use crate::hex_trig::HexTrig;
use crate::mesh_library::spec_lib_get;
use crate::mesh_library::spec_lib_wf;
use crate::mesh_library::MeshLibrary;
use crate::mesh_library::LIB_COORD_MAX;
use crate::objects::hexs_map::bake_err_matches;
use crate::objects::hexs_map::river::spec_rotated;
use crate::objects::hexs_map::spec_lib_meshes_small;
use crate::objects::hexs_map::BakeFail;
use crate::objects::spec_obj_get;
use crate::objects::Connection;
use crate::objects::WaveKind;
use crate::objects::WaveObject;
use crate::rng::spec_fx_draw;
use crate::rng::spec_rng_next;
use crate::rng::spec_seed_state;
use crate::rng::spec_shaped;
use crate::rng::spec_trailing_zeros;
use crate::rng::TileRng;
use crate::text::str_eq;
use crate::vector::RVec3;
use crate::vertex::Vertex;
use crate::wave_mesh::spec_scale_y_vertex;
use crate::wave_mesh::spec_translate_vertex;
use crate::wave_mesh::MeshView;
use crate::wave_mesh::FX_TRANSLATE_MAX;
use vstd::prelude::*;
use vstd::string::StringExecFns;

verus! {

pub struct Desert;

/// The structural roles a desert template maps to meshes: the core and the
/// cactus decoration parts.
#[derive(Clone, Copy, PartialEq, Eq, Structural, Hash, Debug)]
pub enum ConnectionType {
    Core,
    CactusBranch,
    CactusTop,
    CactusStem,
    CactusBig,
}

/// The name each structural role is registered under.
pub open spec fn spec_ct_name(c: ConnectionType) -> Seq<char> {
    match c {
        ConnectionType::Core => "Core"@,
        ConnectionType::CactusBranch => "CactusBranch"@,
        ConnectionType::CactusTop => "CactusTop"@,
        ConnectionType::CactusStem => "CactusStem"@,
        ConnectionType::CactusBig => "CactusBig"@,
    }
}

impl ConnectionType {
    pub fn name(&self) -> (r: &'static str)
        ensures
            r@ == spec_ct_name(*self),
    {
        match self {
            ConnectionType::Core => "Core",
            ConnectionType::CactusBranch => "CactusBranch",
            ConnectionType::CactusTop => "CactusTop",
            ConnectionType::CactusStem => "CactusStem",
            ConnectionType::CactusBig => "CactusBig",
        }
    }
}

impl Desert {
    /// Desert connects exactly to the "Sand" category.
    pub fn can_connect(connection: Connection) -> (r: bool)
        ensures
            r == (connection@ == "Sand"@),
    {
        str_eq(connection.name(), "Sand")
    }
}

/// One of the six hex rotation slots a cactus arm can face.
#[derive(Clone, Copy, PartialEq, Eq, Structural, Debug)]
pub enum Rotation {
    Zero,
    One,
    Two,
    Three,
    Fore,
    Five,
}

pub open spec fn spec_slot(r: Rotation) -> int {
    match r {
        Rotation::Zero => 0,
        Rotation::One => 1,
        Rotation::Two => 2,
        Rotation::Three => 3,
        Rotation::Fore => 4,
        Rotation::Five => 5,
    }
}

/// The slot a free index lands in, wrapping around the six slots.
pub open spec fn spec_rot_from(value: int) -> Rotation {
    let v = value % 6;
    if v == 0 {
        Rotation::Zero
    } else if v == 1 {
        Rotation::One
    } else if v == 2 {
        Rotation::Two
    } else if v == 3 {
        Rotation::Three
    } else if v == 4 {
        Rotation::Fore
    } else {
        Rotation::Five
    }
}

impl Rotation {
    pub fn index(&self) -> (r: usize)
        ensures
            r == spec_slot(*self),
            r < 6,
    {
        match self {
            Rotation::Zero => 0,
            Rotation::One => 1,
            Rotation::Two => 2,
            Rotation::Three => 3,
            Rotation::Fore => 4,
            Rotation::Five => 5,
        }
    }

    pub fn from_index(value: usize) -> (r: Rotation)
        ensures
            r == spec_rot_from(value as int),
    {
        match value % 6 {
            0 => Rotation::Zero,
            1 => Rotation::One,
            2 => Rotation::Two,
            3 => Rotation::Three,
            4 => Rotation::Fore,
            _ => Rotation::Five,
        }
    }
}

/// The arrangement shapes a draw can select: how many cacti or arms there
/// are and their relative placement pattern.
#[derive(Clone, Copy, PartialEq, Eq, Structural, Debug)]
pub enum CactusShapes {
    Zero,
    One,
    TwoOp,
    TwoSingle,
    TwoDubble,
    ThreeSingle,
    ThreeDubble,
}

/// The arm arrangement selected by a geometric draw.
pub open spec fn spec_arm_distribution(value: int) -> CactusShapes {
    if value == 0 {
        CactusShapes::Zero
    } else if value == 1 {
        CactusShapes::One
    } else if value == 2 {
        CactusShapes::TwoOp
    } else if value == 3 {
        CactusShapes::ThreeDubble
    } else if value == 4 {
        CactusShapes::TwoDubble
    } else if value == 5 {
        CactusShapes::TwoSingle
    } else {
        CactusShapes::ThreeSingle
    }
}

/// The cactus arrangement selected by a geometric draw.
pub open spec fn spec_cactus_distribution(value: int) -> CactusShapes {
    if value == 5 {
        CactusShapes::Zero
    } else if value == 0 {
        CactusShapes::One
    } else if value == 1 {
        CactusShapes::TwoOp
    } else if value == 2 {
        CactusShapes::ThreeDubble
    } else if value == 3 {
        CactusShapes::TwoDubble
    } else if value == 4 {
        CactusShapes::TwoSingle
    } else {
        CactusShapes::ThreeSingle
    }
}

impl CactusShapes {
    pub fn arm_distribution(value: u64) -> (r: CactusShapes)
        ensures
            r == spec_arm_distribution(value as int),
    {
        match value {
            0 => CactusShapes::Zero,
            1 => CactusShapes::One,
            2 => CactusShapes::TwoOp,
            3 => CactusShapes::ThreeDubble,
            4 => CactusShapes::TwoDubble,
            5 => CactusShapes::TwoSingle,
            _ => CactusShapes::ThreeSingle,
        }
    }

    pub fn cactus_distribution(value: u64) -> (r: CactusShapes)
        ensures
            r == spec_cactus_distribution(value as int),
    {
        match value {
            5 => CactusShapes::Zero,
            0 => CactusShapes::One,
            1 => CactusShapes::TwoOp,
            2 => CactusShapes::ThreeDubble,
            3 => CactusShapes::TwoDubble,
            4 => CactusShapes::TwoSingle,
            _ => CactusShapes::ThreeSingle,
        }
    }
}

/// One cactus arm: its rotation slot, its height on the stem, and its
/// length.
#[derive(Clone, Copy, PartialEq, Eq, Structural, Debug)]
pub struct CactusArm {
    pub slot: Rotation,
    pub hight: Fx,
    pub length: Fx,
}

/// One cactus: whether it uses the big stem variant, its stem height, and
/// its arms.
pub struct Cactus {
    pub big: bool,
    pub hight: Fx,
    pub arms: Vec<CactusArm>,
}

/// The abstract content of a cactus.
#[verifier::ext_equal]
pub struct CactusView {
    pub big: bool,
    pub hight: Fx,
    pub arms: Seq<CactusArm>,
}

impl View for Cactus {
    type V = CactusView;

    open spec fn view(&self) -> CactusView {
        CactusView { big: self.big, hight: self.hight, arms: self.arms@ }
    }
}

/// A new arm at the given slot: its height on the stem is a mode-weighted
/// draw between one tenth and a span below the stem top, its length a
/// mode-weighted draw between one tenth and the stem height.
pub open spec fn spec_arm_new(s: u64, mh: Fx, slot: Rotation) -> (CactusArm, u64) {
    let hi_h: int = if mh.raw - 6554 >= 13107 {
        mh.raw - 6554
    } else {
        13107
    };
    let mode_h: int = if Fx::spec_mul(mh.raw, 16384) >= 9830 {
        Fx::spec_mul(mh.raw, 16384)
    } else {
        9830
    };
    let (h, s1) = spec_shaped(s, 6554, mode_h, hi_h);
    let mode_l: int = if Fx::spec_mul(mh.raw, 43254) >= 9830 {
        Fx::spec_mul(mh.raw, 43254)
    } else {
        9830
    };
    let (l, s2) = spec_shaped(s1, 6554, mode_l, mh.raw as int);
    (CactusArm { slot, hight: Fx { raw: h as i64 }, length: Fx { raw: l as i64 } }, s2)
}

/// The arms of one cactus: a free slot is drawn first, then the shape says
/// which slots get arms relative to it.
pub open spec fn spec_gen_arm(shape: CactusShapes, ch: Fx, s: u64) -> (Seq<CactusArm>, u64) {
    let rot = (spec_rng_next(s) % 6) as int;
    let s1 = spec_rng_next(s);
    match shape {
        CactusShapes::Zero => (Seq::<CactusArm>::empty(), s1),
        CactusShapes::One => {
            let (a1, s2) = spec_arm_new(s1, ch, spec_rot_from(rot));
            (seq![a1], s2)
        },
        CactusShapes::TwoSingle | CactusShapes::TwoOp => {
            let (a1, s2) = spec_arm_new(s1, ch, spec_rot_from(rot));
            let (a2, s3) = spec_arm_new(s2, ch, spec_rot_from(rot + 3));
            (seq![a1, a2], s3)
        },
        CactusShapes::TwoDubble => {
            let (a1, s2) = spec_arm_new(s1, ch, spec_rot_from(rot));
            let (a2, s3) = spec_arm_new(s2, ch, spec_rot_from(rot + 2));
            (seq![a1, a2], s3)
        },
        CactusShapes::ThreeSingle | CactusShapes::ThreeDubble => {
            let (a1, s2) = spec_arm_new(s1, ch, spec_rot_from(rot));
            let (a2, s3) = spec_arm_new(s2, ch, spec_rot_from(rot + 2));
            let (a3, s4) = spec_arm_new(s3, ch, spec_rot_from(rot + 4));
            (seq![a1, a2, a3], s4)
        },
    }
}

/// A new cactus: a mode-weighted stem height between a quarter and a half,
/// a one-in-four chance of the big stem variant, and an arm arrangement
/// from a geometric draw.
pub open spec fn spec_cactus_new(s: u64) -> (CactusView, u64) {
    let (h, s1) = spec_shaped(s, 16384, 24576, 32768);
    let big = spec_rng_next(s1) % 4 == 0;
    let s2 = spec_rng_next(s1);
    let g = spec_trailing_zeros(spec_rng_next(s2));
    let s3 = spec_rng_next(s2);
    let (arms, s4) = spec_gen_arm(spec_arm_distribution(g), Fx { raw: h as i64 }, s3);
    (CactusView { big, hight: Fx { raw: h as i64 }, arms }, s4)
}

pub open spec fn spec_sin_of(i: int) -> Fx {
    Fx { raw: crate::hex_trig::spec_rot_sin_raw(i) }
}

pub open spec fn spec_cos_of(i: int) -> Fx {
    Fx { raw: crate::hex_trig::spec_rot_cos_raw(i) }
}

/// A horizontal offset along the first axis.
pub open spec fn spec_vec_x(x: int) -> RVec3 {
    RVec3 { x: Fx { raw: x as i64 }, y: Fx { raw: 0 }, z: Fx { raw: 0 } }
}

/// The cacti of one tile and their offsets from the tile centre, for each
/// arrangement shape.
pub open spec fn spec_gen_cactus(shape: CactusShapes, s: u64) -> (Seq<(CactusView, RVec3)>, u64) {
    match shape {
        CactusShapes::Zero => (Seq::<(CactusView, RVec3)>::empty(), s),
        CactusShapes::One => {
            let (x1, s1) = spec_fx_draw(s, 0, 23593);
            let si = (spec_rng_next(s1) % 6) as int;
            let s2 = spec_rng_next(s1);
            let ci = (spec_rng_next(s2) % 6) as int;
            let s3 = spec_rng_next(s2);
            let o1 = spec_vec_x(x1).spec_rotate_y(spec_sin_of(si), spec_cos_of(ci));
            let (c1, s4) = spec_cactus_new(s3);
            (seq![(c1, o1)], s4)
        },
        CactusShapes::TwoOp => {
            let (x1, s1) = spec_fx_draw(s, 6554, 23593);
            let (x2, s2) = spec_fx_draw(s1, -23593, -6554);
            let si = (spec_rng_next(s2) % 6) as int;
            let s3 = spec_rng_next(s2);
            let ci = (spec_rng_next(s3) % 6) as int;
            let s4 = spec_rng_next(s3);
            let o1 = spec_vec_x(x1).spec_rotate_y(spec_sin_of(si), spec_cos_of(ci));
            let o2 = spec_vec_x(x2).spec_rotate_y(spec_sin_of(si), spec_cos_of(ci));
            let (c1, s5) = spec_cactus_new(s4);
            let (c2, s6) = spec_cactus_new(s5);
            (seq![(c1, o1), (c2, o2)], s6)
        },
        CactusShapes::TwoSingle => {
            let (x1, s1) = spec_fx_draw(s, 3277, 19661);
            let (x2, s2) = spec_fx_draw(s1, 6554, 23593);
            let o2a = spec_vec_x(x2).spec_rotate_y(spec_sin_of(1), spec_cos_of(1));
            let rot = (spec_rng_next(s2) % 6) as int;
            let s3 = spec_rng_next(s2);
            let o1 = spec_vec_x(x1).spec_rotate_y(spec_sin_of(rot), spec_cos_of(rot));
            let o2 = o2a.spec_rotate_y(spec_sin_of(rot), spec_cos_of(rot));
            let (c1, s4) = spec_cactus_new(s3);
            let (c2, s5) = spec_cactus_new(s4);
            (seq![(c1, o1), (c2, o2)], s5)
        },
        CactusShapes::TwoDubble => {
            let (x1, s1) = spec_fx_draw(s, 3277, 19661);
            let (x2, s2) = spec_fx_draw(s1, 6554, 23593);
            let o2a = spec_vec_x(x2).spec_rotate_y(spec_sin_of(2), spec_cos_of(2));
            let rot = (spec_rng_next(s2) % 6) as int;
            let s3 = spec_rng_next(s2);
            let o1 = spec_vec_x(x1).spec_rotate_y(spec_sin_of(rot), spec_cos_of(rot));
            let o2 = o2a.spec_rotate_y(spec_sin_of(rot), spec_cos_of(rot));
            let (c1, s4) = spec_cactus_new(s3);
            let (c2, s5) = spec_cactus_new(s4);
            (seq![(c1, o1), (c2, o2)], s5)
        },
        CactusShapes::ThreeSingle => {
            let (x1, s1) = spec_fx_draw(s, 3277, 19661);
            let (x2, s2) = spec_fx_draw(s1, 9830, 23593);
            let (x3, s3) = spec_fx_draw(s2, 6554, 16384);
            let o1a = spec_vec_x(x1).spec_rotate_y(spec_sin_of(1), spec_cos_of(1));
            let o2a = spec_vec_x(x2).spec_rotate_y(spec_sin_of(2), spec_cos_of(2));
            let rot = (spec_rng_next(s3) % 6) as int;
            let s4 = spec_rng_next(s3);
            let o1 = o1a.spec_rotate_y(spec_sin_of(rot), spec_cos_of(rot));
            let o2 = o2a.spec_rotate_y(spec_sin_of(rot), spec_cos_of(rot));
            let o3 = spec_vec_x(x3).spec_rotate_y(spec_sin_of(rot), spec_cos_of(rot));
            let (c1, s5) = spec_cactus_new(s4);
            let (c2, s6) = spec_cactus_new(s5);
            let (c3, s7) = spec_cactus_new(s6);
            (seq![(c1, o1), (c2, o2), (c3, o3)], s7)
        },
        CactusShapes::ThreeDubble => {
            let (x1, s1) = spec_fx_draw(s, 3277, 19661);
            let (x2, s2) = spec_fx_draw(s1, 9830, 23593);
            let (x3, s3) = spec_fx_draw(s2, 6554, 16384);
            let o1a = spec_vec_x(x1).spec_rotate_y(spec_sin_of(4), spec_cos_of(2));
            let o3a = spec_vec_x(x3).spec_rotate_y(spec_sin_of(2), spec_cos_of(4));
            let rot = (spec_rng_next(s3) % 6) as int;
            let s4 = spec_rng_next(s3);
            let o1 = o1a.spec_rotate_y(spec_sin_of(rot), spec_cos_of(rot));
            let o2 = spec_vec_x(x2).spec_rotate_y(spec_sin_of(rot), spec_cos_of(rot));
            let o3 = o3a.spec_rotate_y(spec_sin_of(rot), spec_cos_of(rot));
            let (c1, s5) = spec_cactus_new(s4);
            let (c2, s6) = spec_cactus_new(s5);
            let (c3, s7) = spec_cactus_new(s6);
            (seq![(c1, o1), (c2, o2), (c3, o3)], s7)
        },
    }
}

/// A cactus whose fields stay within one unit of scale, with at most three
/// arms.
pub open spec fn spec_cactus_bounded(cv: CactusView) -> bool {
    &&& 0 <= cv.hight.raw <= 65536
    &&& cv.arms.len() <= 3
    &&& forall|i: int|
        0 <= i < cv.arms.len() ==> {
            &&& 0 <= (#[trigger] cv.arms[i]).hight.raw <= 65536
            &&& 0 <= cv.arms[i].length.raw <= 65536
        }
}

impl CactusArm {
    fn new(rng: &mut TileRng, max_hight: Fx, rotation: Rotation) -> (r: CactusArm)
        requires
            16384 <= max_hight.raw <= 32768,
        ensures
            r == spec_arm_new(old(rng).state, max_hight, rotation).0,
            final(rng).state == spec_arm_new(old(rng).state, max_hight, rotation).1,
            0 <= r.hight.raw <= 65536,
            0 <= r.length.raw <= 65536,
    {
        proof {
            crate::fx::lemma_mul_pos_bound(max_hight.raw, 16384, 32768);
            crate::fx::lemma_mul_bound(max_hight.raw, 43254, max_hight.raw as int, 1);
            crate::fx::lemma_mul_pos_bound(max_hight.raw, 43254, 32768);
        }
        let hi_h = max_hight.sub(Fx { raw: 6554 }).max(Fx { raw: 13107 });
        let mode_h = max_hight.mul(Fx { raw: 16384 }).max(Fx { raw: 9830 });
        let hight = rng.sample_shaped(Fx { raw: 6554 }, mode_h, hi_h);
        let mode_l = max_hight.mul(Fx { raw: 43254 }).max(Fx { raw: 9830 });
        let length = rng.sample_shaped(Fx { raw: 6554 }, mode_l, max_hight);
        CactusArm { slot: rotation, hight, length }
    }
}

impl CactusShapes {
    /// The arms of one cactus, relative to a freshly drawn free slot.
    fn gen_arm(self, cactus_hight: Fx, rng: &mut TileRng) -> (r: Vec<CactusArm>)
        requires
            16384 <= cactus_hight.raw <= 32768,
        ensures
            r@ == spec_gen_arm(self, cactus_hight, old(rng).state).0,
            final(rng).state == spec_gen_arm(self, cactus_hight, old(rng).state).1,
            r@.len() <= 3,
            forall|i: int|
                0 <= i < r@.len() ==> {
                    &&& 0 <= (#[trigger] r@[i]).hight.raw <= 65536
                    &&& 0 <= r@[i].length.raw <= 65536
                },
    {
        let rot = rng.next_below(6) as usize;
        let mut v: Vec<CactusArm> = Vec::new();
        match self {
            CactusShapes::Zero => {},
            CactusShapes::One => {
                v.push(CactusArm::new(rng, cactus_hight, Rotation::from_index(rot)));
            },
            CactusShapes::TwoSingle | CactusShapes::TwoOp => {
                v.push(CactusArm::new(rng, cactus_hight, Rotation::from_index(rot)));
                v.push(CactusArm::new(rng, cactus_hight, Rotation::from_index(rot + 3)));
            },
            CactusShapes::TwoDubble => {
                v.push(CactusArm::new(rng, cactus_hight, Rotation::from_index(rot)));
                v.push(CactusArm::new(rng, cactus_hight, Rotation::from_index(rot + 2)));
            },
            CactusShapes::ThreeSingle | CactusShapes::ThreeDubble => {
                v.push(CactusArm::new(rng, cactus_hight, Rotation::from_index(rot)));
                v.push(CactusArm::new(rng, cactus_hight, Rotation::from_index(rot + 2)));
                v.push(CactusArm::new(rng, cactus_hight, Rotation::from_index(rot + 4)));
            },
        }
        proof {
            assert(v@ =~= spec_gen_arm(self, cactus_hight, old(rng).state).0);
        }
        v
    }

    /// The cacti of one tile and their offsets from the tile centre.
    #[verifier::rlimit(90)]
    #[verifier::spinoff_prover]
    fn gen_cactus(self, rng: &mut TileRng) -> (r: Vec<(Cactus, RVec3)>)
        ensures
            r@.map(|k: int, e: (Cactus, RVec3)| (e.0@, e.1)) == spec_gen_cactus(
                self,
                old(rng).state,
            ).0,
            final(rng).state == spec_gen_cactus(self, old(rng).state).1,
            r@.len() <= 3,
            forall|i: int|
                0 <= i < r@.len() ==> {
                    &&& spec_cactus_bounded((#[trigger] r@[i]).0@)
                    &&& 16384 <= r@[i].0@.hight.raw <= 32768
                    &&& r@[i].1.bounded(0x20000)
                },
    {
        let mut v: Vec<(Cactus, RVec3)> = Vec::new();
        match self {
            CactusShapes::Zero => {},
            CactusShapes::One => {
                let x1 = rng.next_fx(Fx { raw: 0 }, Fx { raw: 23593 });
                let si = rng.next_below(6) as usize;
                let ci = rng.next_below(6) as usize;
                let mut o1 = RVec3 { x: x1, y: Fx { raw: 0 }, z: Fx { raw: 0 } };
                proof {
                    crate::vector::lemma_rotate_y_bound(
                        o1,
                        <Fx as HexTrig>::spec_rotations_sin(si as int),
                        <Fx as HexTrig>::spec_rotations_cos(ci as int),
                        0x8000,
                    );
                }
                o1.rotate_y(
                    <Fx as HexTrig>::rotations_sin(si),
                    <Fx as HexTrig>::rotations_cos(ci),
                );
                let c1 = Cactus::new(rng);
                v.push((c1, o1));
            },
            CactusShapes::TwoOp => {
                let x1 = rng.next_fx(Fx { raw: 6554 }, Fx { raw: 23593 });
                let x2 = rng.next_fx(Fx { raw: -23593 }, Fx { raw: -6554 });
                let si = rng.next_below(6) as usize;
                let ci = rng.next_below(6) as usize;
                let mut o1 = RVec3 { x: x1, y: Fx { raw: 0 }, z: Fx { raw: 0 } };
                let mut o2 = RVec3 { x: x2, y: Fx { raw: 0 }, z: Fx { raw: 0 } };
                proof {
                    crate::vector::lemma_rotate_y_bound(
                        o1,
                        <Fx as HexTrig>::spec_rotations_sin(si as int),
                        <Fx as HexTrig>::spec_rotations_cos(ci as int),
                        0x8000,
                    );
                    crate::vector::lemma_rotate_y_bound(
                        o2,
                        <Fx as HexTrig>::spec_rotations_sin(si as int),
                        <Fx as HexTrig>::spec_rotations_cos(ci as int),
                        0x8000,
                    );
                }
                o1.rotate_y(
                    <Fx as HexTrig>::rotations_sin(si),
                    <Fx as HexTrig>::rotations_cos(ci),
                );
                o2.rotate_y(
                    <Fx as HexTrig>::rotations_sin(si),
                    <Fx as HexTrig>::rotations_cos(ci),
                );
                let c1 = Cactus::new(rng);
                let c2 = Cactus::new(rng);
                v.push((c1, o1));
                v.push((c2, o2));
            },
            CactusShapes::TwoSingle => {
                let x1 = rng.next_fx(Fx { raw: 3277 }, Fx { raw: 19661 });
                let x2 = rng.next_fx(Fx { raw: 6554 }, Fx { raw: 23593 });
                let mut o1 = RVec3 { x: x1, y: Fx { raw: 0 }, z: Fx { raw: 0 } };
                let mut o2 = RVec3 { x: x2, y: Fx { raw: 0 }, z: Fx { raw: 0 } };
                proof {
                    crate::vector::lemma_rotate_y_bound(
                        o2,
                        <Fx as HexTrig>::spec_rotations_sin(1),
                        <Fx as HexTrig>::spec_rotations_cos(1),
                        0x8000,
                    );
                }
                o2.rotate_y(
                    <Fx as HexTrig>::rotations_sin(1),
                    <Fx as HexTrig>::rotations_cos(1),
                );
                let rot = rng.next_below(6) as usize;
                proof {
                    crate::vector::lemma_rotate_y_bound(
                        o1,
                        <Fx as HexTrig>::spec_rotations_sin(rot as int),
                        <Fx as HexTrig>::spec_rotations_cos(rot as int),
                        0x8000,
                    );
                    crate::vector::lemma_rotate_y_bound(
                        o2,
                        <Fx as HexTrig>::spec_rotations_sin(rot as int),
                        <Fx as HexTrig>::spec_rotations_cos(rot as int),
                        0x10000,
                    );
                }
                o1.rotate_y(
                    <Fx as HexTrig>::rotations_sin(rot),
                    <Fx as HexTrig>::rotations_cos(rot),
                );
                o2.rotate_y(
                    <Fx as HexTrig>::rotations_sin(rot),
                    <Fx as HexTrig>::rotations_cos(rot),
                );
                let c1 = Cactus::new(rng);
                let c2 = Cactus::new(rng);
                v.push((c1, o1));
                v.push((c2, o2));
            },
            CactusShapes::TwoDubble => {
                let x1 = rng.next_fx(Fx { raw: 3277 }, Fx { raw: 19661 });
                let x2 = rng.next_fx(Fx { raw: 6554 }, Fx { raw: 23593 });
                let mut o1 = RVec3 { x: x1, y: Fx { raw: 0 }, z: Fx { raw: 0 } };
                let mut o2 = RVec3 { x: x2, y: Fx { raw: 0 }, z: Fx { raw: 0 } };
                proof {
                    crate::vector::lemma_rotate_y_bound(
                        o2,
                        <Fx as HexTrig>::spec_rotations_sin(2),
                        <Fx as HexTrig>::spec_rotations_cos(2),
                        0x8000,
                    );
                }
                o2.rotate_y(
                    <Fx as HexTrig>::rotations_sin(2),
                    <Fx as HexTrig>::rotations_cos(2),
                );
                let rot = rng.next_below(6) as usize;
                proof {
                    crate::vector::lemma_rotate_y_bound(
                        o1,
                        <Fx as HexTrig>::spec_rotations_sin(rot as int),
                        <Fx as HexTrig>::spec_rotations_cos(rot as int),
                        0x8000,
                    );
                    crate::vector::lemma_rotate_y_bound(
                        o2,
                        <Fx as HexTrig>::spec_rotations_sin(rot as int),
                        <Fx as HexTrig>::spec_rotations_cos(rot as int),
                        0x10000,
                    );
                }
                o1.rotate_y(
                    <Fx as HexTrig>::rotations_sin(rot),
                    <Fx as HexTrig>::rotations_cos(rot),
                );
                o2.rotate_y(
                    <Fx as HexTrig>::rotations_sin(rot),
                    <Fx as HexTrig>::rotations_cos(rot),
                );
                let c1 = Cactus::new(rng);
                let c2 = Cactus::new(rng);
                v.push((c1, o1));
                v.push((c2, o2));
            },
            CactusShapes::ThreeSingle => {
                let x1 = rng.next_fx(Fx { raw: 3277 }, Fx { raw: 19661 });
                let x2 = rng.next_fx(Fx { raw: 9830 }, Fx { raw: 23593 });
                let x3 = rng.next_fx(Fx { raw: 6554 }, Fx { raw: 16384 });
                let mut o1 = RVec3 { x: x1, y: Fx { raw: 0 }, z: Fx { raw: 0 } };
                let mut o2 = RVec3 { x: x2, y: Fx { raw: 0 }, z: Fx { raw: 0 } };
                let mut o3 = RVec3 { x: x3, y: Fx { raw: 0 }, z: Fx { raw: 0 } };
                proof {
                    crate::vector::lemma_rotate_y_bound(
                        o1,
                        <Fx as HexTrig>::spec_rotations_sin(1),
                        <Fx as HexTrig>::spec_rotations_cos(1),
                        0x8000,
                    );
                    crate::vector::lemma_rotate_y_bound(
                        o2,
                        <Fx as HexTrig>::spec_rotations_sin(2),
                        <Fx as HexTrig>::spec_rotations_cos(2),
                        0x8000,
                    );
                }
                o1.rotate_y(
                    <Fx as HexTrig>::rotations_sin(1),
                    <Fx as HexTrig>::rotations_cos(1),
                );
                o2.rotate_y(
                    <Fx as HexTrig>::rotations_sin(2),
                    <Fx as HexTrig>::rotations_cos(2),
                );
                let rot = rng.next_below(6) as usize;
                proof {
                    crate::vector::lemma_rotate_y_bound(
                        o1,
                        <Fx as HexTrig>::spec_rotations_sin(rot as int),
                        <Fx as HexTrig>::spec_rotations_cos(rot as int),
                        0x10000,
                    );
                    crate::vector::lemma_rotate_y_bound(
                        o2,
                        <Fx as HexTrig>::spec_rotations_sin(rot as int),
                        <Fx as HexTrig>::spec_rotations_cos(rot as int),
                        0x10000,
                    );
                    crate::vector::lemma_rotate_y_bound(
                        o3,
                        <Fx as HexTrig>::spec_rotations_sin(rot as int),
                        <Fx as HexTrig>::spec_rotations_cos(rot as int),
                        0x8000,
                    );
                }
                o1.rotate_y(
                    <Fx as HexTrig>::rotations_sin(rot),
                    <Fx as HexTrig>::rotations_cos(rot),
                );
                o2.rotate_y(
                    <Fx as HexTrig>::rotations_sin(rot),
                    <Fx as HexTrig>::rotations_cos(rot),
                );
                o3.rotate_y(
                    <Fx as HexTrig>::rotations_sin(rot),
                    <Fx as HexTrig>::rotations_cos(rot),
                );
                let c1 = Cactus::new(rng);
                let c2 = Cactus::new(rng);
                let c3 = Cactus::new(rng);
                v.push((c1, o1));
                v.push((c2, o2));
                v.push((c3, o3));
            },
            CactusShapes::ThreeDubble => {
                let x1 = rng.next_fx(Fx { raw: 3277 }, Fx { raw: 19661 });
                let x2 = rng.next_fx(Fx { raw: 9830 }, Fx { raw: 23593 });
                let x3 = rng.next_fx(Fx { raw: 6554 }, Fx { raw: 16384 });
                let mut o1 = RVec3 { x: x1, y: Fx { raw: 0 }, z: Fx { raw: 0 } };
                let mut o2 = RVec3 { x: x2, y: Fx { raw: 0 }, z: Fx { raw: 0 } };
                let mut o3 = RVec3 { x: x3, y: Fx { raw: 0 }, z: Fx { raw: 0 } };
                proof {
                    crate::vector::lemma_rotate_y_bound(
                        o1,
                        <Fx as HexTrig>::spec_rotations_sin(4),
                        <Fx as HexTrig>::spec_rotations_cos(2),
                        0x8000,
                    );
                    crate::vector::lemma_rotate_y_bound(
                        o3,
                        <Fx as HexTrig>::spec_rotations_sin(2),
                        <Fx as HexTrig>::spec_rotations_cos(4),
                        0x8000,
                    );
                }
                o1.rotate_y(
                    <Fx as HexTrig>::rotations_sin(4),
                    <Fx as HexTrig>::rotations_cos(2),
                );
                o3.rotate_y(
                    <Fx as HexTrig>::rotations_sin(2),
                    <Fx as HexTrig>::rotations_cos(4),
                );
                let rot = rng.next_below(6) as usize;
                proof {
                    crate::vector::lemma_rotate_y_bound(
                        o1,
                        <Fx as HexTrig>::spec_rotations_sin(rot as int),
                        <Fx as HexTrig>::spec_rotations_cos(rot as int),
                        0x10000,
                    );
                    crate::vector::lemma_rotate_y_bound(
                        o2,
                        <Fx as HexTrig>::spec_rotations_sin(rot as int),
                        <Fx as HexTrig>::spec_rotations_cos(rot as int),
                        0x8000,
                    );
                    crate::vector::lemma_rotate_y_bound(
                        o3,
                        <Fx as HexTrig>::spec_rotations_sin(rot as int),
                        <Fx as HexTrig>::spec_rotations_cos(rot as int),
                        0x10000,
                    );
                }
                o1.rotate_y(
                    <Fx as HexTrig>::rotations_sin(rot),
                    <Fx as HexTrig>::rotations_cos(rot),
                );
                o2.rotate_y(
                    <Fx as HexTrig>::rotations_sin(rot),
                    <Fx as HexTrig>::rotations_cos(rot),
                );
                o3.rotate_y(
                    <Fx as HexTrig>::rotations_sin(rot),
                    <Fx as HexTrig>::rotations_cos(rot),
                );
                let c1 = Cactus::new(rng);
                let c2 = Cactus::new(rng);
                let c3 = Cactus::new(rng);
                v.push((c1, o1));
                v.push((c2, o2));
                v.push((c3, o3));
            },
        }
        proof {
            assert(v@.map(|k: int, e: (Cactus, RVec3)| (e.0@, e.1)) =~= spec_gen_cactus(
                self,
                old(rng).state,
            ).0);
        }
        v
    }
}

impl Cactus {
    /// A new cactus from the next draws of the tile's generator.
    fn new(rng: &mut TileRng) -> (r: Cactus)
        ensures
            r@ == spec_cactus_new(old(rng).state).0,
            final(rng).state == spec_cactus_new(old(rng).state).1,
            spec_cactus_bounded(r@),
            16384 <= r@.hight.raw <= 32768,
    {
        let hight = rng.sample_shaped(Fx { raw: 16384 }, Fx { raw: 24576 }, Fx { raw: 32768 });
        let big = rng.next_below(4) == 0;
        let g = rng.geometric();
        let shape = CactusShapes::arm_distribution(g);
        let arms = shape.gen_arm(hight, rng);
        let r = Cactus { big, hight, arms };
        proof {
            assert(r@ =~= spec_cactus_new(old(rng).state).0);
        }
        r
    }
}


/// One arm of a cactus: the branch variant is resolved, then the cap, a
/// stem segment scaled to the arm's length, and the branch connector are
/// translated into place, rotated into the arm's slot, and baked.
pub open spec fn spec_cactus_arm_build(
    ms: Seq<(Connection, String)>,
    lib: Seq<(Seq<char>, MeshView)>,
    stem: MeshView,
    topm: MeshView,
    arm: CactusArm,
    o: RVec3,
    bv: BuilderView,
) -> (BuilderView, Option<BakeFail>) {
    match spec_obj_get(ms, "CactusBranch"@) {
        None => (bv, Some(BakeFail::NotSet("CactusBranch"@, "Desert"@))),
        Some(hb) => match spec_lib_get(lib, hb) {
            None => (bv, Some(BakeFail::NotFound("CactusBranch"@, "Desert"@))),
            Some(brm) => {
                let slot = spec_slot(arm.slot);
                let t_top = RVec3 {
                    x: Fx { raw: 6554 },
                    y: Fx { raw: (arm.hight.raw + arm.length.raw + 6554) as i64 },
                    z: Fx { raw: 0 },
                };
                let t_stem = RVec3 {
                    x: Fx { raw: 6554 },
                    y: Fx { raw: (arm.hight.raw + 6554) as i64 },
                    z: Fx { raw: 0 },
                };
                let t_br = RVec3 { x: Fx { raw: 0 }, y: arm.hight, z: Fx { raw: 0 } };
                let topv = spec_rotated(
                    topm.vertexs.map(|k: int, v: Vertex| spec_translate_vertex(v, t_top)),
                    slot,
                );
                let stemv = spec_rotated(
                    stem.vertexs.map(|k: int, v: Vertex| spec_scale_y_vertex(v, arm.length)).map(
                        |k: int, v: Vertex| spec_translate_vertex(v, t_stem),
                    ),
                    slot,
                );
                let brv = spec_rotated(
                    brm.vertexs.map(|k: int, v: Vertex| spec_translate_vertex(v, t_br)),
                    slot,
                );
                let b1 = spec_bake(bv, topv, topm.indices, o);
                let b2 = spec_bake(b1, stemv, stem.indices, o);
                (spec_bake(b2, brv, brm.indices, o), None)
            },
        },
    }
}

/// The first `n` arms in order, stopping at the first failure.
pub open spec fn spec_cactus_arms_build(
    ms: Seq<(Connection, String)>,
    lib: Seq<(Seq<char>, MeshView)>,
    stem: MeshView,
    topm: MeshView,
    arms: Seq<CactusArm>,
    o: RVec3,
    n: int,
    bv: BuilderView,
) -> (BuilderView, Option<BakeFail>)
    decreases n,
{
    if n <= 0 {
        (bv, None)
    } else {
        let (bv1, e) = spec_cactus_arms_build(ms, lib, stem, topm, arms, o, n - 1, bv);
        if e is Some {
            (bv1, e)
        } else {
            spec_cactus_arm_build(ms, lib, stem, topm, arms[n - 1], o, bv1)
        }
    }
}

/// A failure at one arm is the whole fold's failure.
pub proof fn lemma_cactus_arms_stop(
    ms: Seq<(Connection, String)>,
    lib: Seq<(Seq<char>, MeshView)>,
    stem: MeshView,
    topm: MeshView,
    arms: Seq<CactusArm>,
    o: RVec3,
    i: int,
    n: int,
    bv: BuilderView,
)
    requires
        0 <= i <= n,
        spec_cactus_arms_build(ms, lib, stem, topm, arms, o, i, bv).1 is Some,
    ensures
        spec_cactus_arms_build(ms, lib, stem, topm, arms, o, n, bv) == spec_cactus_arms_build(
            ms,
            lib,
            stem,
            topm,
            arms,
            o,
            i,
            bv,
        ),
    decreases n - i,
{
    if i < n {
        lemma_cactus_arms_stop(ms, lib, stem, topm, arms, o, i, n - 1, bv);
    }
}

/// One whole cactus: a stem variant scaled to the cactus height, the cap at
/// stem height, then every arm.
pub open spec fn spec_cactus_build(
    ms: Seq<(Connection, String)>,
    lib: Seq<(Seq<char>, MeshView)>,
    cv: CactusView,
    o: RVec3,
    bv: BuilderView,
) -> (BuilderView, Option<BakeFail>) {
    let stemname = if cv.big {
        "CactusBig"@
    } else {
        "CactusStem"@
    };
    match spec_obj_get(ms, stemname) {
        None => (bv, Some(BakeFail::NotSet(stemname, "Desert"@))),
        Some(hs) => match spec_lib_get(lib, hs) {
            None => (bv, Some(BakeFail::NotFound(stemname, "Desert"@))),
            Some(stem) => {
                let bv1 = spec_bake(
                    bv,
                    stem.vertexs.map(|k: int, v: Vertex| spec_scale_y_vertex(v, cv.hight)),
                    stem.indices,
                    o,
                );
                match spec_obj_get(ms, "CactusTop"@) {
                    None => (bv1, Some(BakeFail::NotSet("CactusTop"@, "Desert"@))),
                    Some(ht) => match spec_lib_get(lib, ht) {
                        None => (bv1, Some(BakeFail::NotFound("CactusTop"@, "Desert"@))),
                        Some(topm) => {
                            let bv2 = spec_bake(
                                bv1,
                                topm.vertexs,
                                topm.indices,
                                o.spec_add(
                                    RVec3 { x: Fx { raw: 0 }, y: cv.hight, z: Fx { raw: 0 } },
                                ),
                            );
                            spec_cactus_arms_build(
                                ms,
                                lib,
                                stem,
                                topm,
                                cv.arms,
                                o,
                                cv.arms.len() as int,
                                bv2,
                            )
                        },
                    },
                }
            },
        },
    }
}

/// The first `n` cacti in order, each at the tile offset plus its own
/// offset, stopping at the first failure.
pub open spec fn spec_desert_cacti(
    ms: Seq<(Connection, String)>,
    lib: Seq<(Seq<char>, MeshView)>,
    offset: RVec3,
    cacti: Seq<(CactusView, RVec3)>,
    n: int,
    bv: BuilderView,
) -> (BuilderView, Option<BakeFail>)
    decreases n,
{
    if n <= 0 {
        (bv, None)
    } else {
        let (bv1, e) = spec_desert_cacti(ms, lib, offset, cacti, n - 1, bv);
        if e is Some {
            (bv1, e)
        } else {
            spec_cactus_build(ms, lib, cacti[n - 1].0, offset.spec_add(cacti[n - 1].1), bv1)
        }
    }
}

/// A failure at one cactus is the whole fold's failure.
pub proof fn lemma_desert_cacti_stop(
    ms: Seq<(Connection, String)>,
    lib: Seq<(Seq<char>, MeshView)>,
    offset: RVec3,
    cacti: Seq<(CactusView, RVec3)>,
    i: int,
    n: int,
    bv: BuilderView,
)
    requires
        0 <= i <= n,
        spec_desert_cacti(ms, lib, offset, cacti, i, bv).1 is Some,
    ensures
        spec_desert_cacti(ms, lib, offset, cacti, n, bv) == spec_desert_cacti(
            ms,
            lib,
            offset,
            cacti,
            i,
            bv,
        ),
    decreases n - i,
{
    if i < n {
        lemma_desert_cacti_stop(ms, lib, offset, cacti, i, n - 1, bv);
    }
}

/// What baking a desert tile does to a builder: the core variant, then a
/// seeded three-cluster cactus arrangement; the whole decoration is a pure
/// function of the per-tile seed, so the same seed always reproduces
/// identical geometry.
pub open spec fn spec_desert_build(
    ms: Seq<(Connection, String)>,
    lib: Seq<(Seq<char>, MeshView)>,
    offset: RVec3,
    seed: u64,
    bv: BuilderView,
) -> (BuilderView, Option<BakeFail>) {
    match spec_obj_get(ms, "Core"@) {
        None => (bv, Some(BakeFail::NotSet("Core"@, "Desert"@))),
        Some(h) => match spec_lib_get(lib, h) {
            None => (bv, Some(BakeFail::NotFound("Core"@, "Desert"@))),
            Some(m) => {
                let bv1 = spec_bake(bv, m.vertexs, m.indices, offset);
                let (cacti, _) = spec_gen_cactus(
                    CactusShapes::ThreeDubble,
                    spec_seed_state(seed),
                );
                spec_desert_cacti(ms, lib, offset, cacti, cacti.len() as int, bv1)
            },
        },
    }
}

/// Two decoration builds over the same template, library, offset and
/// per-tile seed, starting from equal builders, produce identical output.
pub proof fn lemma_desert_deterministic(
    ms: Seq<(Connection, String)>,
    lib: Seq<(Seq<char>, MeshView)>,
    offset: RVec3,
    seed: u64,
    bv1: BuilderView,
    bv2: BuilderView,
)
    requires
        bv1 == bv2,
    ensures
        spec_desert_build(ms, lib, offset, seed, bv1) == spec_desert_build(
            ms,
            lib,
            offset,
            seed,
            bv2,
        ),
{
}


/// One arm of a cactus, mirroring `spec_cactus_arm_build` exactly.
#[verifier::rlimit(60)]
fn cactus_arm_build(
    obj: &WaveObject,
    stem: &crate::wave_mesh::WaveMesh,
    topm: &crate::wave_mesh::WaveMesh,
    arm: CactusArm,
    o: RVec3,
    meshs: &MeshLibrary,
    main_mesh: &mut WaveBuilder,
) -> (r: Result<(), BakeError>)
    requires
        old(main_mesh)@.wf(),
        spec_lib_wf(meshs@),
        spec_lib_meshes_small(meshs@),
        old(main_mesh)@.vertexs.len() <= 0x7800_0000,
        o.bounded(0x3800_0000_0000),
        crate::wave_mesh::spec_indices_valid(stem@.vertexs, stem@.indices),
        crate::wave_mesh::spec_coords_bounded(stem@.vertexs, LIB_COORD_MAX as int),
        stem@.vertexs.len() <= 0x100_0000,
        crate::wave_mesh::spec_indices_valid(topm@.vertexs, topm@.indices),
        crate::wave_mesh::spec_coords_bounded(topm@.vertexs, LIB_COORD_MAX as int),
        topm@.vertexs.len() <= 0x100_0000,
        0 <= arm.hight.raw <= 65536,
        0 <= arm.length.raw <= 65536,
    ensures
        ({
            let se = spec_cactus_arm_build(
                obj.meshes@,
                meshs@,
                stem@,
                topm@,
                arm,
                o,
                old(main_mesh)@,
            );
            &&& final(main_mesh)@ == se.0
            &&& final(main_mesh)@.wf()
            &&& final(main_mesh)@.vertexs.len() <= old(main_mesh)@.vertexs.len() + 0x300_0000
            &&& match r {
                Ok(()) => se.1 is None,
                Err(e) => se.1 is Some && bake_err_matches(e, se.1.unwrap()),
            }
        }),
{
    let handle = match obj.get("CactusBranch") {
        Some(h) => h,
        None => {
            return Err(BakeError::MeshNotSet { mesh: "CactusBranch", obj: "Desert" });
        },
    };
    let brm = match meshs.get(handle.as_str()) {
        Some(m) => m,
        None => {
            return Err(BakeError::MeshNotFound { mesh: "CactusBranch", obj: "Desert" });
        },
    };
    proof {
        crate::mesh_library::lemma_lib_get_props(meshs@, handle@);
    }
    let slot = arm.slot.index();
    let sin = <Fx as HexTrig>::rotations_sin(slot);
    let cos = <Fx as HexTrig>::rotations_cos(slot);
    let t_top = RVec3 {
        x: Fx { raw: 6554 },
        y: Fx { raw: arm.hight.raw + arm.length.raw + 6554 },
        z: Fx { raw: 0 },
    };
    let t_stem = RVec3 { x: Fx { raw: 6554 }, y: Fx { raw: arm.hight.raw + 6554 }, z: Fx { raw: 0 } };
    let t_br = RVec3 { x: Fx { raw: 0 }, y: arm.hight, z: Fx { raw: 0 } };
    // the arm's cap
    let mut top2 = topm.clone();
    top2.offset(t_top);
    proof {
        assert forall|k: int| 0 <= k < top2.vertexs@.len() implies (
        #[trigger] top2.vertexs@[k]).position.bounded(crate::vector::FX_ROT_COORD_MAX as int) by {
            assert(topm.vertexs@[k].position.bounded(LIB_COORD_MAX as int));
        }
    }
    top2.rotate(sin, cos);
    proof {
        crate::builder::lemma_bake_verts_wf(
            main_mesh@,
            top2.vertexs@,
            o,
            top2.vertexs@.len() as int,
        );
        assert forall|k: int| 0 <= k < top2.vertexs@.len() implies (
        #[trigger] top2.vertexs@[k]).position.bounded(FX_TRANSLATE_MAX as int) by {
            assert(top2.vertexs@[k].position.bounded(2 * crate::vector::FX_ROT_COORD_MAX));
        }
    }
    let _b1 = main_mesh.bake(o, &top2);
    // the arm's stem segment
    let mut arm_stem = stem.clone();
    arm_stem.scale_y(arm.length);
    proof {
        assert forall|k: int| 0 <= k < arm_stem.vertexs@.len() implies (
        #[trigger] arm_stem.vertexs@[k]).position.bounded((LIB_COORD_MAX + 0x2_0000) as int) by {
            assert(stem.vertexs@[k].position.bounded(LIB_COORD_MAX as int));
            crate::fx::lemma_mul_bound(
                stem.vertexs@[k].position.y.raw,
                arm.length.raw,
                LIB_COORD_MAX as int,
                1,
            );
        }
    }
    arm_stem.offset(t_stem);
    proof {
        assert forall|k: int| 0 <= k < arm_stem.vertexs@.len() implies (
        #[trigger] arm_stem.vertexs@[k]).position.bounded(crate::vector::FX_ROT_COORD_MAX as int) by {
            let prev = stem.vertexs@.map(
                |kk: int, v: Vertex| spec_scale_y_vertex(v, arm.length),
            )[k];
            assert(prev.position.bounded((LIB_COORD_MAX + 0x2_0000) as int));
        }
    }
    arm_stem.rotate(sin, cos);
    proof {
        crate::builder::lemma_bake_verts_wf(
            main_mesh@,
            arm_stem.vertexs@,
            o,
            arm_stem.vertexs@.len() as int,
        );
        assert forall|k: int| 0 <= k < arm_stem.vertexs@.len() implies (
        #[trigger] arm_stem.vertexs@[k]).position.bounded(FX_TRANSLATE_MAX as int) by {
            assert(arm_stem.vertexs@[k].position.bounded(2 * crate::vector::FX_ROT_COORD_MAX));
        }
    }
    let _b2 = main_mesh.bake(o, &arm_stem);
    // the branch connector
    let mut branch = brm.clone();
    branch.offset(t_br);
    proof {
        assert forall|k: int| 0 <= k < branch.vertexs@.len() implies (
        #[trigger] branch.vertexs@[k]).position.bounded(crate::vector::FX_ROT_COORD_MAX as int) by {
            assert(brm.vertexs@[k].position.bounded(LIB_COORD_MAX as int));
        }
    }
    branch.rotate(sin, cos);
    proof {
        crate::builder::lemma_bake_verts_wf(
            main_mesh@,
            branch.vertexs@,
            o,
            branch.vertexs@.len() as int,
        );
        assert forall|k: int| 0 <= k < branch.vertexs@.len() implies (
        #[trigger] branch.vertexs@[k]).position.bounded(FX_TRANSLATE_MAX as int) by {
            assert(branch.vertexs@[k].position.bounded(2 * crate::vector::FX_ROT_COORD_MAX));
        }
    }
    let _b3 = main_mesh.bake(o, &branch);
    Ok(())
}

impl Cactus {
    /// Bake one cactus at its offset: the stem variant scaled to the cactus
    /// height, the cap at stem height, then every arm as a small hierarchy
    /// rotated into its slot.
    #[verifier::rlimit(60)]
    fn build(
        &self,
        o: RVec3,
        meshs: &MeshLibrary,
        main_mesh: &mut WaveBuilder,
        obj: &WaveObject,
    ) -> (r: Result<(), BakeError>)
        requires
            old(main_mesh)@.wf(),
            spec_lib_wf(meshs@),
            spec_lib_meshes_small(meshs@),
            old(main_mesh)@.vertexs.len() <= 0x7000_0000,
            o.bounded(0x3800_0000_0000),
            spec_cactus_bounded(self@),
        ensures
            ({
                let se = spec_cactus_build(obj.meshes@, meshs@, self@, o, old(main_mesh)@);
                &&& final(main_mesh)@ == se.0
                &&& final(main_mesh)@.wf()
                &&& final(main_mesh)@.vertexs.len() <= old(main_mesh)@.vertexs.len() + 0x1000_0000
                &&& match r {
                    Ok(()) => se.1 is None,
                    Err(e) => se.1 is Some && bake_err_matches(e, se.1.unwrap()),
                }
            }),
    {
        let stem_name: &'static str = if self.big {
            "CactusBig"
        } else {
            "CactusStem"
        };
        let handle = match obj.get(stem_name) {
            Some(h) => h,
            None => {
                return Err(BakeError::MeshNotSet { mesh: stem_name, obj: "Desert" });
            },
        };
        let stem = match meshs.get(handle.as_str()) {
            Some(m) => m,
            None => {
                return Err(BakeError::MeshNotFound { mesh: stem_name, obj: "Desert" });
            },
        };
        proof {
            crate::mesh_library::lemma_lib_get_props(meshs@, handle@);
        }
        let mut main_stem = stem.clone();
        main_stem.scale_y(self.hight);
        proof {
            crate::builder::lemma_bake_verts_wf(
                main_mesh@,
                main_stem.vertexs@,
                o,
                main_stem.vertexs@.len() as int,
            );
            assert forall|k: int| 0 <= k < main_stem.vertexs@.len() implies (
            #[trigger] main_stem.vertexs@[k]).position.bounded(FX_TRANSLATE_MAX as int) by {
                assert(stem.vertexs@[k].position.bounded(LIB_COORD_MAX as int));
                crate::fx::lemma_mul_bound(
                    stem.vertexs@[k].position.y.raw,
                    self.hight.raw,
                    LIB_COORD_MAX as int,
                    1,
                );
            }
        }
        let _s = main_mesh.bake(o, &main_stem);
        let ghost bv1 = main_mesh@;
        let thandle = match obj.get("CactusTop") {
            Some(h) => h,
            None => {
                return Err(BakeError::MeshNotSet { mesh: "CactusTop", obj: "Desert" });
            },
        };
        let topm = match meshs.get(thandle.as_str()) {
            Some(m) => m,
            None => {
                return Err(BakeError::MeshNotFound { mesh: "CactusTop", obj: "Desert" });
            },
        };
        proof {
            crate::mesh_library::lemma_lib_get_props(meshs@, thandle@);
            crate::builder::lemma_bake_verts_wf(
                main_mesh@,
                topm.vertexs@,
                o.spec_add(RVec3 { x: Fx { raw: 0 }, y: self.hight, z: Fx { raw: 0 } }),
                topm.vertexs@.len() as int,
            );
        }
        let top_off = o.add(RVec3 { x: Fx { raw: 0 }, y: self.hight, z: Fx { raw: 0 } });
        let _t = main_mesh.bake(top_off, topm);
        let ghost bv2 = main_mesh@;
        let ghost armsq = self.arms@;
        let n = self.arms.len();
        let mut i: usize = 0;
        while i < n
            invariant
                i <= n,
                n == armsq.len(),
                n <= 3,
                self.arms@ == armsq,
                forall|k: int|
                    0 <= k < n ==> {
                        &&& 0 <= (#[trigger] armsq[k]).hight.raw <= 65536
                        &&& 0 <= armsq[k].length.raw <= 65536
                    },
                spec_lib_wf(meshs@),
                spec_lib_meshes_small(meshs@),
                o.bounded(0x3800_0000_0000),
                crate::wave_mesh::spec_indices_valid(stem@.vertexs, stem@.indices),
                crate::wave_mesh::spec_coords_bounded(stem@.vertexs, LIB_COORD_MAX as int),
                stem@.vertexs.len() <= 0x100_0000,
                crate::wave_mesh::spec_indices_valid(topm@.vertexs, topm@.indices),
                crate::wave_mesh::spec_coords_bounded(topm@.vertexs, LIB_COORD_MAX as int),
                topm@.vertexs.len() <= 0x100_0000,
                bv2.vertexs.len() <= 0x7200_0000,
                bv2.vertexs.len() <= old(main_mesh)@.vertexs.len() + 0x200_0000,
                main_mesh@.wf(),
                main_mesh@.vertexs.len() <= bv2.vertexs.len() + i * 0x300_0000,
                spec_cactus_arms_build(obj.meshes@, meshs@, stem@, topm@, armsq, o, i as int, bv2).0
                    == main_mesh@,
                spec_cactus_arms_build(
                    obj.meshes@,
                    meshs@,
                    stem@,
                    topm@,
                    armsq,
                    o,
                    i as int,
                    bv2,
                ).1 is None,
                spec_cactus_build(obj.meshes@, meshs@, self@, o, old(main_mesh)@)
                    == spec_cactus_arms_build(
                    obj.meshes@,
                    meshs@,
                    stem@,
                    topm@,
                    armsq,
                    o,
                    n as int,
                    bv2,
                ),
            decreases n - i,
        {
            let ghost before = main_mesh@;
            let arm = self.arms[i];
            match cactus_arm_build(obj, stem, topm, arm, o, meshs, main_mesh) {
                Ok(()) => {},
                Err(err) => {
                    proof {
                        assert(spec_cactus_arms_build(
                            obj.meshes@,
                            meshs@,
                            stem@,
                            topm@,
                            armsq,
                            o,
                            i + 1,
                            bv2,
                        ) == spec_cactus_arm_build(
                            obj.meshes@,
                            meshs@,
                            stem@,
                            topm@,
                            armsq[i as int],
                            o,
                            before,
                        ));
                        lemma_cactus_arms_stop(
                            obj.meshes@,
                            meshs@,
                            stem@,
                            topm@,
                            armsq,
                            o,
                            i + 1,
                            n as int,
                            bv2,
                        );
                    }
                    return Err(err);
                },
            }
            i = i + 1;
        }
        Ok(())
    }
}


impl Desert {
    /// A desert tile type: the core category maps to the given mesh name,
    /// and every cactus part maps to a mesh named after the part.
    pub fn new(core: &str) -> (r: WaveObject)
        ensures
            r.kind == WaveKind::Desert,
            spec_obj_get(r.meshes@, "Core"@) == Some(core@),
            forall|c: ConnectionType|
                c != ConnectionType::Core ==> spec_obj_get(r.meshes@, spec_ct_name(c)) == Some(
                    spec_ct_name(c),
                ),
    {
        let mut meshes: Vec<(Connection, String)> = Vec::new();
        meshes.push((Connection::new("Core"), String::from_str(core)));
        meshes.push((Connection::new("CactusBranch"), String::from_str("CactusBranch")));
        meshes.push((Connection::new("CactusTop"), String::from_str("CactusTop")));
        meshes.push((Connection::new("CactusStem"), String::from_str("CactusStem")));
        meshes.push((Connection::new("CactusBig"), String::from_str("CactusBig")));
        let r = WaveObject { meshes, kind: WaveKind::Desert };
        proof {
            reveal_strlit("Core");
            reveal_strlit("CactusBranch");
            reveal_strlit("CactusTop");
            reveal_strlit("CactusStem");
            reveal_strlit("CactusBig");
            assert forall|c: ConnectionType| c != ConnectionType::Core implies spec_obj_get(
                r.meshes@,
                spec_ct_name(c),
            ) == Some(spec_ct_name(c)) by {
                reveal_with_fuel(crate::objects::spec_obj_get_from, 7);
            }
            assert(spec_obj_get(r.meshes@, "Core"@) == Some(core@)) by {
                reveal_with_fuel(crate::objects::spec_obj_get_from, 7);
            }
        }
        r
    }

    /// Bake a desert tile: the core variant, then the cacti of a seeded
    /// three-cluster arrangement, each at its drawn offset from the tile
    /// centre.  The same per-tile seed always reproduces identical
    /// geometry.
    #[verifier::rlimit(60)]
    pub fn bake(
        obj: &WaveObject,
        offset: RVec3,
        meshs: &MeshLibrary,
        main_mesh: &mut WaveBuilder,
        id: u64,
    ) -> (r: Result<(), BakeError>)
        requires
            old(main_mesh)@.wf(),
            spec_lib_wf(meshs@),
            spec_lib_meshes_small(meshs@),
            old(main_mesh)@.vertexs.len() <= 0x1000_0000,
            offset.bounded(0x2000_0000_0000),
        ensures
            ({
                let sb = spec_desert_build(obj.meshes@, meshs@, offset, id, old(main_mesh)@);
                &&& final(main_mesh)@ == sb.0
                &&& final(main_mesh)@.wf()
                &&& match r {
                    Ok(()) => sb.1 is None,
                    Err(e) => sb.1 is Some && bake_err_matches(e, sb.1.unwrap()),
                }
            }),
    {
        let mut rng = TileRng::seed_from_u64(id);
        let handle = match obj.get("Core") {
            Some(h) => h,
            None => {
                return Err(BakeError::MeshNotSet { mesh: "Core", obj: "Desert" });
            },
        };
        let mesh = match meshs.get(handle.as_str()) {
            Some(m) => m,
            None => {
                return Err(BakeError::MeshNotFound { mesh: "Core", obj: "Desert" });
            },
        };
        proof {
            crate::mesh_library::lemma_lib_get_props(meshs@, handle@);
            crate::builder::lemma_bake_verts_wf(
                main_mesh@,
                mesh.vertexs@,
                offset,
                mesh.vertexs@.len() as int,
            );
        }
        let _core = main_mesh.bake(offset, mesh);
        let ghost bv1 = main_mesh@;
        let cacti = CactusShapes::ThreeDubble.gen_cactus(&mut rng);
        let ghost cactiq = cacti@.map(|k: int, e: (Cactus, RVec3)| (e.0@, e.1));
        proof {
            assert(spec_desert_build(obj.meshes@, meshs@, offset, id, old(main_mesh)@)
                == spec_desert_cacti(
                obj.meshes@,
                meshs@,
                offset,
                cactiq,
                cactiq.len() as int,
                bv1,
            ));
        }
        let n = cacti.len();
        let mut i: usize = 0;
        while i < n
            invariant
                i <= n,
                n == cacti@.len(),
                n <= 3,
                cactiq == cacti@.map(|k: int, e: (Cactus, RVec3)| (e.0@, e.1)),
                cactiq.len() == n,
                forall|k: int|
                    0 <= k < n ==> {
                        &&& spec_cactus_bounded((#[trigger] cacti@[k]).0@)
                        &&& cacti@[k].1.bounded(0x20000)
                    },
                spec_lib_wf(meshs@),
                spec_lib_meshes_small(meshs@),
                offset.bounded(0x2000_0000_0000),
                bv1.vertexs.len() <= 0x1100_0000,
                main_mesh@.wf(),
                main_mesh@.vertexs.len() <= bv1.vertexs.len() + i * 0x1000_0000,
                spec_desert_cacti(obj.meshes@, meshs@, offset, cactiq, i as int, bv1).0
                    == main_mesh@,
                spec_desert_cacti(obj.meshes@, meshs@, offset, cactiq, i as int, bv1).1 is None,
                spec_desert_build(obj.meshes@, meshs@, offset, id, old(main_mesh)@)
                    == spec_desert_cacti(obj.meshes@, meshs@, offset, cactiq, n as int, bv1),
            decreases n - i,
        {
            let ghost before = main_mesh@;
            let co = cacti[i].1;
            let pos = offset.add(co);
            let res = cacti[i].0.build(pos, meshs, main_mesh, obj);
            match res {
                Ok(()) => {},
                Err(err) => {
                    proof {
                        assert(spec_desert_cacti(
                            obj.meshes@,
                            meshs@,
                            offset,
                            cactiq,
                            i + 1,
                            bv1,
                        ) == spec_cactus_build(
                            obj.meshes@,
                            meshs@,
                            cactiq[i as int].0,
                            offset.spec_add(cactiq[i as int].1),
                            before,
                        ));
                        lemma_desert_cacti_stop(
                            obj.meshes@,
                            meshs@,
                            offset,
                            cactiq,
                            i + 1,
                            n as int,
                            bv1,
                        );
                    }
                    return Err(err);
                },
            }
            i = i + 1;
        }
        Ok(())
    }
}

} // verus!
