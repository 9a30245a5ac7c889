use attention_blackhole::platform::window_tracker::WindowTracker;

#[test]
fn window_tracker_target_stored() {
    let t = WindowTracker::new("Visual Studio Code");
    assert_eq!(t.target(), "Visual Studio Code");
    assert_eq!(t.last_hwnd(), 0);
}

#[test]
fn observe_counts_switches_only_on_change() {
    let mut t = WindowTracker::new("Visual Studio Code");
    assert_eq!(t.observe(100, "main.rs - Visual Studio Code"), (true, true));
    assert_eq!(t.last_hwnd(), 100);
    // same window again: no switch
    assert_eq!(t.observe(100, "main.rs - Visual Studio Code"), (true, false));
    // another window: a switch, off target
    assert_eq!(t.observe(200, "Browser"), (false, true));
    // no foreground window: neither on target nor a switch
    assert_eq!(t.observe(0, "Visual Studio Code"), (false, false));
    assert_eq!(t.last_hwnd(), 0);
    // back to the editor after the gap counts as a switch
    assert_eq!(t.observe(100, "visual studio code"), (true, true));
    assert_eq!(t.target(), "Visual Studio Code");
}

#[test]
fn observe_with_empty_target_never_on_target() {
    let mut t = WindowTracker::new("");
    assert_eq!(t.observe(7, "anything"), (false, true));
}
