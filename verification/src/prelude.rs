//! The items most callers need.

pub use crate::builder::WaveBuilder;
pub use crate::fx::Fx;
pub use crate::mesh_library::MeshLibrary;
pub use crate::vector::RVec3;
pub use crate::vertex::Vertex;
pub use crate::wave_mesh::WaveMesh;
