//! Scalars, tuples and colors, and the tracer that works on them.

pub mod color;
pub mod scalar;
pub mod tracer;
pub mod tuple;
pub mod util;
