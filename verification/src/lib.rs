//! A verified core for a small real-time 3D renderer: a scene graph of
//! transformable nodes whose world matrices are propagated top-down each
//! frame, and a fixed-size particle pool advanced by discrete ticks.
//!
//! All geometry is carried in a fixed-point encoding (`fixed::FX_ONE` raw
//! units per 1.0), so every transform and particle step is exact integer
//! arithmetic with a precise contract.  Windowing, OpenGL and floating-point
//! conversions live outside this crate.

pub mod fixed;
pub mod linalg;
pub mod scene_graph;
pub mod util;
pub mod particle_system;
pub mod heli;
