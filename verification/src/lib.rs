//! Verified core of an immediate-mode GUI backend for OpenGL 3.x windows.
//!
//! The crate holds the decisions of the backend: which GL commands a frame
//! issues and in which order, how the texture registry evolves, and how host
//! window events become toolkit input. It performs no I/O. GL commands are
//! returned as values for the caller to replay, host events are handed in as
//! values, and numbers that are only carried, never computed with, travel as
//! bit patterns.
//!
//! - [`texture`], [`registry`] and [`delta`]: GL textures, the registry that
//!   owns them, and the per-frame changes to it.
//! - [`gl`]: the GL command stream.
//! - [`passes`] and [`painter`]: the passes of a frame and the renderer that
//!   runs them.
//! - [`input_translate`] and [`input`]: translation tables and the input
//!   translator.
//! - [`shader_source`] and [`cstr`]: the format of shader files, and names
//!   for the driver.
//! - [`carried`]: numbers that pass through.
//! - [`equivalence`] and [`laws`]: what holds of all frames and all events.

pub mod carried;
pub mod cstr;
pub mod delta;
pub mod equivalence;
pub mod gl;
pub mod input;
pub mod input_translate;
pub mod laws;
pub mod painter;
pub mod passes;
pub mod registry;
pub mod shader_source;
pub mod texture;
