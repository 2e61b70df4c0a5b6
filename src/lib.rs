//! Decision logic of a stochastic ray tracer.
//!
//! The arithmetic on real-valued geometry lives with the caller; this crate
//! holds the choices that the renderer makes from the outcome of that
//! arithmetic: which root of a ray-sphere quadratic is reported, which object
//! of a scene is the nearest hit, whether a material scatters, when a light
//! path ends, and how the finished raster is written as text.

pub mod intersect;
pub mod material;
pub mod path;
pub mod raster;
pub mod scene;
