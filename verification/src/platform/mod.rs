//! Platform signal bookkeeping: event counts, idle tracking, title matching,
//! keystroke interval windows and foreground-window switch detection.

pub mod input_hook;
pub mod logic;
pub mod window_tracker;
