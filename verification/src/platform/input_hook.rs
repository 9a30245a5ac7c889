//! Event counters shared between the input hook's callback thread and the tick loop.

use std::sync::atomic::{AtomicI64, Ordering};
use vstd::prelude::*;

use crate::platform::logic::Counts;

verus! {

/// Counts since the last snapshot, one atomic per kind of event, so that the
/// hook callbacks never take a lock.
pub struct AtomicCounts {
    pub keys: AtomicI64,
    pub mouse: AtomicI64,
    pub switches: AtomicI64,
    pub backspaces: AtomicI64,
}

impl AtomicCounts {
    /// Reads every counter and sets it back to zero; each value is truncated to
    /// 32 bits (see `Counts::from_counters`).
    pub fn drain(&self) -> Counts {
        let keys = self.keys.swap(0, Ordering::Relaxed);
        let mouse = self.mouse.swap(0, Ordering::Relaxed);
        let switches = self.switches.swap(0, Ordering::Relaxed);
        let backspaces = self.backspaces.swap(0, Ordering::Relaxed);
        Counts::from_counters(keys, mouse, switches, backspaces)
    }
}

impl Default for AtomicCounts {
    fn default() -> AtomicCounts {
        AtomicCounts {
            keys: AtomicI64::new(0),
            mouse: AtomicI64::new(0),
            switches: AtomicI64::new(0),
            backspaces: AtomicI64::new(0),
        }
    }
}


/// Win32 message id of a key press.
pub const WM_KEYDOWN: usize = 0x0100;
/// Win32 message id of a key press with Alt held (system key).
pub const WM_SYSKEYDOWN: usize = 0x0104;
/// Win32 message id of a left mouse button press.
pub const WM_LBUTTONDOWN: usize = 0x0201;
/// Win32 message id of a right mouse button press.
pub const WM_RBUTTONDOWN: usize = 0x0204;
/// Win32 message id of a middle mouse button press.
pub const WM_MBUTTONDOWN: usize = 0x0207;
/// Virtual-key code of Backspace, the only key code ever compared.
pub const VK_BACK: u32 = 0x08;

/// What a keyboard hook event does to the shared state.
#[derive(Debug, Clone, Copy, PartialEq, Eq, Structural)]
pub struct KeyHookAction {
    /// Count one key.
    pub count_key: bool,
    /// Count one backspace (always together with a key).
    pub count_backspace: bool,
    /// Record the keystroke's moment for the typing rhythm.
    pub record_rhythm: bool,
    /// Reset idleness.
    pub note_input: bool,
}

/// A key press counts as a key and resets idleness; a backspace is also counted
/// as a backspace but stays out of the typing rhythm; releases do nothing.
pub open spec fn spec_key_hook_action(message: usize, vk_code: u32) -> KeyHookAction {
    let press = message == WM_KEYDOWN || message == WM_SYSKEYDOWN;
    KeyHookAction {
        count_key: press,
        count_backspace: press && vk_code == VK_BACK,
        record_rhythm: press && vk_code != VK_BACK,
        note_input: press,
    }
}

/// Classifies a low-level keyboard event by its message id and virtual-key
/// code (compared with `VK_BACK` only, never kept).
pub fn key_hook_action(message: usize, vk_code: u32) -> (a: KeyHookAction)
    ensures
        a == spec_key_hook_action(message, vk_code),
{
    let press = message == WM_KEYDOWN || message == WM_SYSKEYDOWN;
    let backspace = vk_code == VK_BACK;
    KeyHookAction {
        count_key: press,
        count_backspace: press && backspace,
        record_rhythm: press && !backspace,
        note_input: press,
    }
}

/// What a mouse hook event does to the shared state.
#[derive(Debug, Clone, Copy, PartialEq, Eq, Structural)]
pub struct MouseHookAction {
    /// Count one click.
    pub count_click: bool,
    /// Reset idleness.
    pub note_input: bool,
}

/// Any mouse event resets idleness; only a button press counts as a click
/// (movement would drown the count).
pub open spec fn spec_mouse_hook_action(message: usize) -> MouseHookAction {
    MouseHookAction {
        count_click: message == WM_LBUTTONDOWN || message == WM_RBUTTONDOWN || message
            == WM_MBUTTONDOWN,
        note_input: true,
    }
}

/// Classifies a low-level mouse event by its message id.
pub fn mouse_hook_action(message: usize) -> (a: MouseHookAction)
    ensures
        a == spec_mouse_hook_action(message),
{
    MouseHookAction {
        count_click: message == WM_LBUTTONDOWN || message == WM_RBUTTONDOWN || message
            == WM_MBUTTONDOWN,
        note_input: true,
    }
}

/// Every counted backspace is a counted key, and a key event either counts and
/// resets idleness or does nothing at all; backspaces never enter the typing
/// rhythm, while every other counted key does.
pub proof fn law_key_events(message: usize, vk_code: u32)
    ensures
        spec_key_hook_action(message, vk_code).count_backspace ==> spec_key_hook_action(
            message,
            vk_code,
        ).count_key,
        spec_key_hook_action(message, vk_code).note_input == spec_key_hook_action(
            message,
            vk_code,
        ).count_key,
        vk_code == VK_BACK ==> !spec_key_hook_action(message, vk_code).record_rhythm,
        spec_key_hook_action(message, vk_code).count_key && vk_code != VK_BACK
            ==> spec_key_hook_action(message, vk_code).record_rhythm,
{
}

/// Every key press counts as a key and resets idleness whatever its key code, so
/// two presses of the same kind count alike; anything but a press counts nothing.
pub proof fn law_every_key_press_counts(message: usize, vk_code: u32, other_vk_code: u32)
    ensures
        (message == WM_KEYDOWN || message == WM_SYSKEYDOWN) ==> spec_key_hook_action(
            message,
            vk_code,
        ).count_key && spec_key_hook_action(message, vk_code).note_input,
        spec_key_hook_action(message, vk_code).count_key == spec_key_hook_action(
            message,
            other_vk_code,
        ).count_key,
        !(message == WM_KEYDOWN || message == WM_SYSKEYDOWN) ==> !spec_key_hook_action(
            message,
            vk_code,
        ).count_key && !spec_key_hook_action(message, vk_code).count_backspace
            && !spec_key_hook_action(message, vk_code).record_rhythm && !spec_key_hook_action(
            message,
            vk_code,
        ).note_input,
        (message == WM_KEYDOWN || message == WM_SYSKEYDOWN) ==> (spec_key_hook_action(
            message,
            vk_code,
        ).count_backspace <==> vk_code == VK_BACK),
{
}

/// Every mouse event resets idleness, and a click is counted only for a button press.
pub proof fn law_mouse_events(message: usize)
    ensures
        spec_mouse_hook_action(message).note_input,
        spec_mouse_hook_action(message).count_click ==> (message == WM_LBUTTONDOWN || message
            == WM_RBUTTONDOWN || message == WM_MBUTTONDOWN),
{
}

} // verus!
