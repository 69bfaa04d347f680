//! Device and resource lifecycle, command recording and frame pacing for a
//! double-buffered Direct3D 12 renderer that draws one fixed triangle.
//!
//! The crate holds the decisions only. Every native call is made by the
//! embedding program, which reports what the driver answered and is told
//! what to do next.

pub mod adapter;
pub mod command;
pub mod descriptor;
pub mod engine;
pub mod error;
pub mod frame_loop;
pub mod geometry;
pub mod history;
pub mod invariants;
pub mod pipeline;
pub mod platform;
pub mod progress;
pub mod renderer;
pub mod state;
pub mod swap_chain;
pub mod upload;
pub mod window;
