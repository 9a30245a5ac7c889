use attention_blackhole::model::attention::{tick_mode, TickMode};
use attention_blackhole::model::signal_buffer::window_sums;
use attention_blackhole::model::state::{next_state, AppState, LoadLevel};
use attention_blackhole::model::types::TickCounts;

// Levels of a load against the default thresholds (dim 80, forced 100, unlock 70).
fn level_of(load: f64) -> LoadLevel {
    LoadLevel { reaches_dim: load >= 80.0, reaches_forced: load >= 100.0, below_unlock: load < 70.0 }
}

#[test]
fn working_to_dimming_at_80() {
    assert_eq!(next_state(AppState::Working, level_of(79.9), true), AppState::Working);
    assert_eq!(next_state(AppState::Working, level_of(80.0), true), AppState::Dimming);
}

#[test]
fn dimming_to_forced_at_100_when_force_on() {
    assert_eq!(next_state(AppState::Dimming, level_of(99.9), true), AppState::Dimming);
    assert_eq!(next_state(AppState::Dimming, level_of(100.0), true), AppState::ForcedBreak);
}

#[test]
fn never_forced_when_force_off() {
    assert_eq!(next_state(AppState::Working, level_of(100.0), false), AppState::Dimming);
}

#[test]
fn forced_exits_only_below_unlock() {
    // between unlock (70) and dim (80): still a forced break
    assert_eq!(next_state(AppState::ForcedBreak, level_of(75.0), true), AppState::ForcedBreak);
    // below unlock: classified by the load (< 80 -> Working)
    assert_eq!(next_state(AppState::ForcedBreak, level_of(69.0), true), AppState::Working);
    assert_eq!(next_state(AppState::ForcedBreak, level_of(85.0), true), AppState::ForcedBreak);
}

#[test]
fn state_force_off_keeps_dimming_and_holds_a_running_break() {
    assert_eq!(next_state(AppState::Dimming, level_of(100.0), false), AppState::Dimming);
    // a forced break, once in, holds even after forcing is switched off
    assert_eq!(next_state(AppState::ForcedBreak, level_of(90.0), false), AppState::ForcedBreak);
    assert_eq!(next_state(AppState::ForcedBreak, level_of(10.0), false), AppState::Working);
    // with an unlock threshold above the dim threshold the release goes to Dimming
    let odd = LoadLevel { reaches_dim: true, reaches_forced: false, below_unlock: true };
    assert_eq!(next_state(AppState::ForcedBreak, odd, true), AppState::Dimming);
}

#[test]
fn state_full_cycle() {
    let loads = [10.0, 80.0, 100.0, 90.0, 70.0, 69.9, 20.0];
    let expected = [
        AppState::Working,
        AppState::Dimming,
        AppState::ForcedBreak,
        AppState::ForcedBreak,
        AppState::ForcedBreak,
        AppState::Working,
        AppState::Working,
    ];
    let mut s = AppState::Working;
    for (l, e) in loads.iter().zip(expected.iter()) {
        s = next_state(s, level_of(*l), true);
        assert_eq!(s, *e);
    }
}

fn counts(keys: u32, mouse: u32) -> TickCounts {
    TickCounts { keys, mouse, ..Default::default() }
}

#[test]
fn total_input_adds_keys_and_mouse() {
    assert_eq!(counts(5, 1).total_input(), 6);
    assert_eq!(TickCounts::default().total_input(), 0);
}

#[test]
fn tick_mode_cases() {
    // active on target: grow
    assert_eq!(tick_mode(true, &counts(5, 1), false), TickMode::Grow);
    // mouse alone is activity
    assert_eq!(tick_mode(true, &counts(0, 1), false), TickMode::Grow);
    // idle wins, on or off target
    assert_eq!(tick_mode(true, &counts(0, 0), true), TickMode::IdleShrink);
    assert_eq!(tick_mode(false, &counts(0, 0), true), TickMode::IdleShrink);
    assert_eq!(tick_mode(true, &counts(3, 0), true), TickMode::IdleShrink);
    // off target but active: slow shrink
    assert_eq!(tick_mode(false, &counts(5, 0), false), TickMode::OffTargetShrink);
    // reading on target: hold
    assert_eq!(tick_mode(true, &counts(0, 0), false), TickMode::Hold);
    // no input off target before the grace period: hold
    assert_eq!(tick_mode(false, &counts(0, 0), false), TickMode::Hold);
    // switches and backspaces alone are no activity
    let only_switches = TickCounts { switches: 4, backspaces: 1, ..Default::default() };
    assert_eq!(tick_mode(true, &only_switches, false), TickMode::Hold);
}

#[test]
fn window_sums_totals() {
    let events = vec![
        TickCounts { keys: 100, switches: 0, backspaces: 0, mouse: 9 },
        TickCounts { keys: 1, switches: 2, backspaces: 1, mouse: 0 },
        TickCounts { keys: 10, switches: 20, backspaces: 5, mouse: 1 },
    ];
    assert_eq!(window_sums(&events), Some((111, 22, 6)));
    assert_eq!(window_sums(&vec![]), Some((0, 0, 0)));
}

#[test]
fn window_sums_overflow_is_none() {
    let events = vec![
        TickCounts { keys: u32::MAX, ..Default::default() },
        TickCounts { keys: 1, ..Default::default() },
    ];
    assert_eq!(window_sums(&events), None);
    let events = vec![
        TickCounts { backspaces: u32::MAX - 1, ..Default::default() },
        TickCounts { backspaces: 1, ..Default::default() },
    ];
    assert_eq!(window_sums(&events), Some((0, 0, u32::MAX)));
}

#[test]
fn state_force_off_run_never_forced() {
    let loads = [50.0, 80.0, 99.0, 100.0, 100.0, 120.0, 75.0, 100.0];
    let mut s = AppState::Working;
    for l in loads.iter() {
        s = next_state(s, level_of(*l), false);
        assert_ne!(s, AppState::ForcedBreak);
    }
    assert_eq!(s, AppState::Dimming);
}
