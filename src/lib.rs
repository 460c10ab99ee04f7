//! Depth-sorting and frame-planning core of a Gaussian splat renderer.
//!
//! Floating-point values cross this library only as their IEEE-754 bit
//! patterns (`u32`); the library compares such patterns but never does
//! arithmetic on them.
pub mod config;
pub mod sort;
pub mod scene;
pub mod renderer;
pub mod bytes;
