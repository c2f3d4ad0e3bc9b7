//! The state of a small form window and what each frame does with it: the
//! interactions of a frame change the state, and the state decides whether a
//! frame closes the window or what it draws.

pub mod panel;
pub mod state;
pub mod text;
pub mod frame;
pub mod laws;
