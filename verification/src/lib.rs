//! The decisions of a small wgpu scene viewer, held apart from the drawing:
//! how keyboard input steers the free-flying camera, how the window loop
//! answers each event, how the surface follows resizes, which polygon mode
//! comes next, how the instance grid is enumerated and how the per-instance
//! vertex buffer is laid out.
//!
//! Everything here works on plain values; the floating-point geometry and the
//! GPU calls live in the program around the library.

pub mod input;
pub mod camera;
pub mod render_mode;
pub mod surface;
pub mod events;
pub mod instance;
