//! A small offline-rendering core: ray/primitive intersection, materials
//! described as sums of scattering effects, a scene aggregator resolving
//! nearest hits across transformed objects, and a Monte-Carlo path tracer.
//!
//! All scalar quantities are fixed-point numbers (see [`fx`]): signed 64-bit
//! integers counting 1/65536 units, with saturating, total arithmetic. Every
//! operation is specified exactly over the integers, which lets the geometry,
//! scene resolution and estimator algebra be verified end to end.

pub mod fx;
pub mod vec;
pub mod affine;
pub mod geometry;
pub mod random;
pub mod lighting;
pub mod montecarlo;
pub mod scene;
pub mod camera;
pub mod render;
