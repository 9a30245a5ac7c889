//! The attention model's integer and decision core: per-tick event counts, the
//! Working / Dimming / ForcedBreak state machine, the choice of how the load
//! moves on a tick, and the event totals over the signal window.

pub mod attention;
pub mod signal_buffer;
pub mod state;
pub mod types;
