use vstd::prelude::*;

verus! {

/// Client-area size of the overlay window in pixels (the primary display's resolution).
#[derive(Debug, Clone, Copy, PartialEq, Eq, Structural)]
pub struct OverlaySize {
    pub width: u32,
    pub height: u32,
}


impl OverlaySize {
    /// The size from the screen metrics in pixels, or `None` when either is not
    /// positive (no usable display).
    pub fn from_metrics(cx: i32, cy: i32) -> (r: Option<OverlaySize>)
        ensures
            r is Some <==> (cx > 0 && cy > 0),
            r matches Some(s) ==> s.width == cx && s.height == cy,
    {
        if cx <= 0 || cy <= 0 {
            None
        } else {
            Some(OverlaySize { width: cx as u32, height: cy as u32 })
        }
    }
}

} // verus!
