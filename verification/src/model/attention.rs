use vstd::prelude::*;

use crate::model::types::TickCounts;

verus! {

/// How the load moves on one tick.
#[derive(Debug, Clone, Copy, PartialEq, Eq, Structural)]
pub enum TickMode {
    /// On target, active and not idle: the load grows.
    Grow,
    /// Idle past the grace period (on target or not): the load shrinks quickly.
    IdleShrink,
    /// Off target but active: the load shrinks slowly.
    OffTargetShrink,
    /// Neither active nor idle (reading): the load stays.
    Hold,
}

/// The movement of one tick: idleness wins, then no input holds, then the
/// target decides between growing and the slow shrink.
pub open spec fn spec_tick_mode(on_target: bool, active: bool, idle: bool) -> TickMode {
    if idle {
        TickMode::IdleShrink
    } else if !active {
        TickMode::Hold
    } else if on_target {
        TickMode::Grow
    } else {
        TickMode::OffTargetShrink
    }
}

/// Chooses how the load moves on a tick with the given counts; `idle_past_grace`
/// says whether the time since the last input exceeds the idle grace period.
pub fn tick_mode(on_target: bool, counts: &TickCounts, idle_past_grace: bool) -> (m: TickMode)
    requires
        counts.keys + counts.mouse <= u32::MAX,
    ensures
        m == spec_tick_mode(on_target, counts.keys + counts.mouse > 0, idle_past_grace),
{
    let active = counts.total_input() > 0;
    if on_target && active && !idle_past_grace {
        TickMode::Grow
    } else if idle_past_grace {
        TickMode::IdleShrink
    } else if !on_target && active {
        TickMode::OffTargetShrink
    } else {
        TickMode::Hold
    }
}


/// Idleness past the grace period shrinks the load on or off target, with or
/// without input counted in the tick.
pub proof fn law_idle_shrinks_anywhere(on_target: bool, active: bool)
    ensures
        spec_tick_mode(on_target, active, true) == TickMode::IdleShrink,
{
}

/// The load grows exactly when the user is on target, active and not idle.
pub proof fn law_growth_needs_focus(on_target: bool, active: bool, idle: bool)
    ensures
        spec_tick_mode(on_target, active, idle) == TickMode::Grow <==> (on_target && active && !idle),
{
}

/// Active work off target shrinks the load slowly (and never grows it).
pub proof fn law_off_target_activity_shrinks(active: bool, idle: bool)
    requires
        active,
        !idle,
    ensures
        spec_tick_mode(false, active, idle) == TickMode::OffTargetShrink,
{
}

/// A tick without input and before the grace period ends (reading) leaves the
/// load unchanged, on target or not.
pub proof fn law_reading_holds(on_target: bool)
    ensures
        spec_tick_mode(on_target, false, false) == TickMode::Hold,
{
}

} // verus!
