use vstd::prelude::*;

verus! {

/// Raw event counts of one tick (counts only, never key contents).
#[derive(Debug, Clone, Copy, PartialEq, Eq, Structural)]
pub struct TickCounts {
    pub keys: u32,
    pub mouse: u32,
    pub switches: u32,
    pub backspaces: u32,
}

impl TickCounts {
    /// Keyboard plus mouse events.
    pub fn total_input(&self) -> (n: u32)
        requires
            self.keys + self.mouse <= u32::MAX,
        ensures
            n == self.keys + self.mouse,
    {
        self.keys + self.mouse
    }
}

impl Default for TickCounts {
    fn default() -> (c: TickCounts)
        ensures
            c == (TickCounts { keys: 0, mouse: 0, switches: 0, backspaces: 0 }),
    {
        TickCounts { keys: 0, mouse: 0, switches: 0, backspaces: 0 }
    }
}

} // verus!
