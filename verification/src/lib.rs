//! A particle fountain: a fixed pool of point particles, stepped under
//! zone-dependent forces and turned into a stream of quad vertices.
//!
//! All numbers are IEEE 754 binary32 values carried by their bit patterns.

pub mod engine;
pub mod geometry;
pub mod launch;
pub mod particle;
pub mod scalar;
pub mod vector;
