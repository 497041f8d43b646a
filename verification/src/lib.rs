//! Verified core of a small 3D scene renderer.
//!
//! The crate covers the geometry, transform and draw pipeline up to the point
//! where data is handed to a graphics backend: the mesh builder that
//! deduplicates indexed vertex data, the transform model and the layout of
//! the matrices derived from it, and the list of draw submissions that one
//! frame issues for a mesh.
//!
//! Scalars are carried as IEEE-754 single-precision bit patterns (see
//! [`scalar`]); the crate moves and compares them and never does arithmetic
//! on them.
pub mod scalar;
pub mod vector;
pub mod vector3;
pub mod color;
pub mod vertex_types;
pub mod obj;
pub mod dedup;
pub mod math;
pub mod basis;
pub mod transform;
pub mod material;
pub mod mesh;
pub mod mesh_laws;
pub mod object3d;
pub mod renderer;
