//! GLFW-backed rendering surface for the luminance graphics stack.
//!
//! This crate is a thin adapter between a native windowing toolkit and a
//! graphics-context abstraction. It fixes the plan for creating a window and
//! an OpenGL context, translates native input and window events into a
//! neutral event vocabulary, maps native failures onto a small closed error
//! set, and owns the shared graphics state handle that rendering code works
//! against.

pub mod error;
pub mod event;
pub mod surface;
