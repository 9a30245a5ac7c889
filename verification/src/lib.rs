//! Core logic of the attention black hole: the integer and decision parts of the
//! attention model, the platform signal bookkeeping and the renderer's capture
//! fallback, each with its contract.

pub mod model;
pub mod platform;
pub mod renderer;
