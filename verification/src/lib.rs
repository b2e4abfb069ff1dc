//! Decision logic for a small animated scene: 200 sphere instances on a
//! grid, an orbiting camera, two contour shaders that can be swapped from
//! the keyboard, and a handful of post-effect parameters tweaked per frame.
//!
//! The rendering engine owns the frame loop, the window and the input
//! backend. This crate holds the part worth proving: given the input
//! snapshot of a frame and the one piece of state that survives between
//! frames (the latched debug flag), it decides every discrete output of the
//! frame update — scale multipliers, shader selection, post-effect values,
//! capture requests, debug and mouse flags, and the continue/finish signal.

pub mod input;
pub mod post_effect;
pub mod scene;
pub mod shaders;
pub mod update;
