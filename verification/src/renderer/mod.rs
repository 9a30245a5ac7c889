//! Renderer-side values that carry no GPU state: the capture fallback source and
//! the overlay's size.

pub mod capture;
pub mod overlay;
