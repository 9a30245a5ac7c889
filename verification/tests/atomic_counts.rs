use std::sync::atomic::Ordering;

use attention_blackhole::platform::input_hook::AtomicCounts;
use attention_blackhole::platform::logic::Counts;

#[test]
fn atomic_counts_drain_reads_and_resets() {
    let a = AtomicCounts::default();
    a.keys.fetch_add(3, Ordering::Relaxed);
    a.backspaces.fetch_add(1, Ordering::Relaxed);
    a.mouse.fetch_add(2, Ordering::Relaxed);
    a.switches.fetch_add(5, Ordering::Relaxed);
    assert_eq!(a.drain(), Counts { keys: 3, mouse: 2, switches: 5, backspaces: 1 });
    assert_eq!(a.drain(), Counts::default());
}

#[test]
fn atomic_counts_drain_truncates() {
    let a = AtomicCounts::default();
    a.keys.store((1i64 << 32) + 9, Ordering::Relaxed);
    assert_eq!(a.drain().keys, 9);
}

use attention_blackhole::platform::input_hook::{
    key_hook_action, mouse_hook_action, KeyHookAction, MouseHookAction, VK_BACK, WM_KEYDOWN,
    WM_LBUTTONDOWN, WM_MBUTTONDOWN, WM_RBUTTONDOWN, WM_SYSKEYDOWN,
};

const WM_KEYUP: usize = 0x0101;
const WM_MOUSEMOVE: usize = 0x0200;
const WM_LBUTTONUP: usize = 0x0202;

#[test]
fn key_events_classified() {
    let letter = KeyHookAction { count_key: true, count_backspace: false, record_rhythm: true, note_input: true };
    assert_eq!(key_hook_action(WM_KEYDOWN, 0x41), letter);
    assert_eq!(key_hook_action(WM_SYSKEYDOWN, 0x41), letter);
    // a backspace counts as key and backspace but stays out of the rhythm
    assert_eq!(
        key_hook_action(WM_KEYDOWN, VK_BACK),
        KeyHookAction { count_key: true, count_backspace: true, record_rhythm: false, note_input: true }
    );
    // releases do nothing
    let nothing = KeyHookAction { count_key: false, count_backspace: false, record_rhythm: false, note_input: false };
    assert_eq!(key_hook_action(WM_KEYUP, VK_BACK), nothing);
    assert_eq!(key_hook_action(WM_KEYUP, 0x41), nothing);
}

#[test]
fn mouse_events_classified() {
    for m in [WM_LBUTTONDOWN, WM_RBUTTONDOWN, WM_MBUTTONDOWN] {
        assert_eq!(mouse_hook_action(m), MouseHookAction { count_click: true, note_input: true });
    }
    for m in [WM_MOUSEMOVE, WM_LBUTTONUP] {
        assert_eq!(mouse_hook_action(m), MouseHookAction { count_click: false, note_input: true });
    }
}
