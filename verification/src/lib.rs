//! Geometry resource runtime: drawable shapes (mesh, cube, plane, empty) with
//! lazy, at-most-once GPU buffer creation expressed as a verified state machine.
//!
//! The library computes what a graphics context must do (upload vertex bytes,
//! bind an array, submit a triangle draw); an unverified runtime layer performs
//! those steps against the real graphics device and reports the handles back.

pub mod bytes;
pub mod cli;
pub mod cube;
pub mod error;
pub mod geometry;
pub mod lifecycle;
pub mod mesh;
pub mod model;
pub mod plane;
pub mod resource;
pub mod scalar;
