//! Core of a small real-time 3D visualization toolkit.
//!
//! The library synthesizes vertex/index data for primitive solids (square,
//! cube, circle, sphere, cone, cylinder, composite arrow, and raw
//! point/line/triangle sets), and manages the shapes' render resources:
//! per-shape instance transforms, dirty-flag-driven buffer rebuilds, and a
//! fixed, blend-correct draw ordering that groups shapes by primitive
//! topology and transparency.
//!
//! Scalar coordinates are carried as IEEE-754 binary32 bit patterns in `u32`
//! fields; the floating-point operations themselves are performed by the
//! `glam` crate behind a handful of trusted wrappers in [`scalar`].

pub mod renders;
pub mod scalar;
pub mod shapes;
