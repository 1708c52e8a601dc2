//! Escape-time classification of points of the complex plane, and the
//! packing of the resulting membership grid into an RGBA byte buffer.
//!
//! The floating-point orbit arithmetic itself (z <- z*z + c on f64 pairs)
//! lives outside this library; the library owns every decision taken on the
//! results of that arithmetic: when an orbit counts as escaped or as a
//! member, how a pixel index maps to a grid position, and how a membership
//! grid becomes a color buffer.

pub mod coords;
pub mod escape;
pub mod render;
