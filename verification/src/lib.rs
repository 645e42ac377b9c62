//! A small interactive scene: one rotating cube, a camera and a light,
//! behind a two-state loading machine, driven by a per-frame
//! rotation controller that smooths keyboard and touch input into an
//! angular speed.
//!
//! The host runtime (window, renderer, input polling) stays outside this
//! crate; it hands each frame's input over as plain values and performs
//! the one outward signal (dismissing the loading overlay) itself.

pub mod input;
pub mod scene;
pub mod speed;
pub mod state;
pub mod world;
