pub mod builder;
pub mod errors;
pub mod fx;
pub mod hex_trig;
pub mod mesh_library;
pub mod obj_parse;
pub mod objects;
pub mod prelude;
pub mod rng;
pub mod text;
pub mod vector;
pub mod vertex;
pub mod wave_mesh;
pub mod wave_palate;
