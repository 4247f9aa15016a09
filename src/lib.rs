//! A small 2D scene: a fullscreen window, a camera, an animated sprite-sheet
//! character, a row of ground tiles and a player marker, advanced by a
//! per-frame animation step driven by a repeating timer.
//!
//! Time is counted in whole nanoseconds and positions in half pixels, so that
//! every quantity the scene computes is an exact integer.
pub mod timer;
pub mod animation;
pub mod ground;
pub mod scene;

pub use scene::Player;
