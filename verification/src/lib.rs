//! A software 3D rendering pipeline for an animated, procedurally shaded
//! star, in exact fixed-point arithmetic.
//!
//! The pipeline transforms mesh vertices through model, view, projection
//! and viewport maps (`uniforms`, `mat`, `shaders`), rasterizes triangles
//! into fragments with exact barycentric coordinates (`triangle`), and
//! colors each fragment through a multi-layer noise temperature model
//! with a seven-band piecewise-linear ramp (`shaders`, `color`). The
//! coherent-noise source is an outside collaborator: the library states
//! where to sample it and takes the samples as plain values. `camera`
//! holds the orbit-and-zoom state the frame driver reads, and `obj`
//! expands parsed mesh data into the flat triangle list.

pub mod fixed;
pub mod trig;
pub mod vec3;
pub mod color;
pub mod mat;
pub mod uniforms;
pub mod vertex;
pub mod fragment;
pub mod triangle;
pub mod shaders;
pub mod camera;
pub mod obj;
