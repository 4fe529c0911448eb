//! Geometry import and impulse control for a small rigid-body drone scene.
//!
//! The import half turns the loosely typed buffers of a scene document into a
//! flat-shaded triangle mesh: it finds the position source of a geometry,
//! decodes it into points, reduces the interleaved index stream to a face
//! list, expands the faces into a triangle soup and packages the result. The
//! control half maps the direction keys held in one tick to the impulse that
//! every controllable body receives.
//!
//! Coordinates travel through the import half as IEEE-754 single-precision
//! bit patterns (`u32`): the pipeline moves them and never computes with
//! them. The control half works in exact decimal fixed point. A host converts
//! at its boundary.

pub mod control;
pub mod decode;
pub mod error;
pub mod flatten;
pub mod import;
pub mod mesh;
pub mod normals;
pub mod reshape;
pub mod resolve;
pub mod scene;
pub mod spawn;
