//! Foreground-window tracking: is the foreground window the target, and did the
//! foreground window change since the last observation.

use vstd::prelude::*;

use crate::platform::logic::{spec_title_matches, title_matches};

verus! {

/// A switch is a real foreground window other than the one seen last.
pub open spec fn spec_switched(last_hwnd: isize, hwnd: isize) -> bool {
    hwnd != 0 && hwnd != last_hwnd
}

/// Seeing the same foreground window again is not a switch, and having no
/// foreground window at all is not a switch either.
pub proof fn law_switch_only_on_change(hwnd: isize, last_hwnd: isize)
    ensures
        !spec_switched(hwnd, hwnd),
        !spec_switched(last_hwnd, 0),
{
}

/// Every real foreground window other than the one seen last is a switch,
/// whichever way the handle values compare.
pub proof fn law_every_change_is_a_switch(hwnd: isize, last_hwnd: isize)
    requires
        hwnd != 0,
        hwnd != last_hwnd,
    ensures
        spec_switched(last_hwnd, hwnd),
{
}

/// Remembers the target title text and the last foreground window handle seen
/// (its raw value; 0 means no foreground window).
#[derive(Debug)]
pub struct WindowTracker {
    target: String,
    last_hwnd: isize,
}

impl WindowTracker {
    pub closed spec fn spec_target(self) -> Seq<char> {
        self.target@
    }

    pub closed spec fn spec_last_hwnd(self) -> isize {
        self.last_hwnd
    }

    pub fn new(target_window_title_contains: &str) -> (t: WindowTracker)
        ensures
            t.spec_target() == target_window_title_contains@,
            t.spec_last_hwnd() == 0,
    {
        WindowTracker { target: target_window_title_contains.to_owned(), last_hwnd: 0 }
    }

    pub fn target(&self) -> (s: &str)
        ensures
            s@ == self.spec_target(),
    {
        self.target.as_str()
    }

    pub fn last_hwnd(&self) -> (h: isize)
        ensures
            h == self.spec_last_hwnd(),
    {
        self.last_hwnd
    }

    /// Takes one observation of the foreground window (`hwnd` its raw handle, 0
    /// when there is none; `title` its title) and returns `(on_target, switched)`:
    /// whether the window's title matches the target, and whether a real window
    /// other than the previous one is now in front.
    pub fn observe(&mut self, hwnd: isize, title: &str) -> (r: (bool, bool))
        ensures
            r.0 == (hwnd != 0 && spec_title_matches(title@, old(self).spec_target())),
            r.1 == spec_switched(old(self).spec_last_hwnd(), hwnd),
            final(self).spec_last_hwnd() == hwnd,
            final(self).spec_target() == old(self).spec_target(),
    {
        let switched = hwnd != 0 && hwnd != self.last_hwnd;
        self.last_hwnd = hwnd;
        let on_target = if hwnd == 0 {
            false
        } else {
            title_matches(title, self.target.as_str())
        };
        (on_target, switched)
    }
}

} // verus!
