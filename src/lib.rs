//! Loading of Wavefront `.obj` geometry into one indexed triangle mesh.
//!
//! The `tobj` crate parses the text; `mesh` merges the objects it returns
//! into a single triangle list, and `loader` ties the two together.
//! Floating-point values are never computed on here: every coordinate is
//! carried as the bit pattern of an IEEE-754 single (`f32::to_bits`).

pub mod error;
pub mod face_refs;
pub mod float_bits;
pub mod loader;
pub mod mesh;

pub use error::ObjLoaderError;
pub use loader::{load_obj_from_bytes, ObjLoaderPlugin};
pub use mesh::{build_mesh, ObjMesh, RawSubMesh};
