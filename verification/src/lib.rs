//! Core logic of a minimal OpenGL rendering bootstrap: context-version
//! planning, shader build outcomes, static mesh data, vertex attribute
//! layout, and the render-loop state machine.
//!
//! The library holds the decisions; an embedding program performs the
//! driver and windowing calls and feeds their results back in as plain
//! values.

pub mod context;
pub mod geometry;
pub mod layout;
pub mod render_loop;
pub mod shader;

use vstd::prelude::*;

verus! {

/// Number of bytes in one single-precision floating-point component,
/// as the graphics driver lays vertex data out.
pub const FLOAT_BYTES: u32 = 4;

} // verus!
