//! A recursive ray tracer for scenes of spheres under ambient, point and
//! directional light.
//!
//! Scalars are IEEE 754 binary64 values carried as bit patterns, so that every
//! comparison the tracer decides by is integer logic. Rounded sums,
//! differences, products and quotients come from `rustc_apfloat`; the power in
//! a specular highlight comes from the caller.

pub mod canvas;
pub mod ray_tracer;
