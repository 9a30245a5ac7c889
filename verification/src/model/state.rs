use vstd::prelude::*;

verus! {

/// The three pressure stages.
#[derive(Debug, Clone, Copy, PartialEq, Eq, Structural)]
pub enum AppState {
    Working,
    Dimming,
    ForcedBreak,
}

/// Where the current load stands against the configured thresholds.
#[derive(Debug, Clone, Copy, PartialEq, Eq, Structural)]
pub struct LoadLevel {
    /// load >= dim threshold
    pub reaches_dim: bool,
    /// load >= forced threshold
    pub reaches_forced: bool,
    /// load < unlock threshold
    pub below_unlock: bool,
}

/// The stage that the load alone calls for, outside a forced break.
pub open spec fn spec_classify(level: LoadLevel) -> AppState {
    if level.reaches_dim {
        AppState::Dimming
    } else {
        AppState::Working
    }
}

/// The next stage: a forced break is left only once the load is below the unlock
/// threshold; otherwise a forced break starts when forcing is enabled and the load
/// reaches the forced threshold, and the load alone decides between the others.
pub open spec fn spec_next_state(prev: AppState, level: LoadLevel, force_enabled: bool) -> AppState {
    match prev {
        AppState::ForcedBreak => if level.below_unlock {
            spec_classify(level)
        } else {
            AppState::ForcedBreak
        },
        _ => if force_enabled && level.reaches_forced {
            AppState::ForcedBreak
        } else {
            spec_classify(level)
        },
    }
}

fn classify(level: LoadLevel) -> (s: AppState)
    ensures
        s == spec_classify(level),
{
    if level.reaches_dim {
        AppState::Dimming
    } else {
        AppState::Working
    }
}

/// Computes the next stage from the previous one (needed: a forced break is left
/// by the unlock threshold, not the dim threshold).
pub fn next_state(prev: AppState, level: LoadLevel, force_enabled: bool) -> (s: AppState)
    ensures
        s == spec_next_state(prev, level, force_enabled),
{
    match prev {
        AppState::ForcedBreak => {
            if level.below_unlock {
                classify(level)
            } else {
                AppState::ForcedBreak
            }
        },
        _ => {
            if force_enabled && level.reaches_forced {
                AppState::ForcedBreak
            } else {
                classify(level)
            }
        },
    }
}


/// The stage reached from `start` after one tick at each of `levels`, in order.
pub open spec fn run_states(start: AppState, levels: Seq<LoadLevel>, force_enabled: bool) -> AppState
    decreases levels.len(),
{
    if levels.len() == 0 {
        start
    } else {
        spec_next_state(run_states(start, levels.drop_last(), force_enabled), levels.last(), force_enabled)
    }
}

/// With forcing disabled, a stage other than ForcedBreak never moves into ForcedBreak.
pub proof fn law_disabled_force_never_enters_forced_break(prev: AppState, level: LoadLevel)
    requires
        prev != AppState::ForcedBreak,
    ensures
        spec_next_state(prev, level, false) != AppState::ForcedBreak,
{
}

/// With forcing disabled, no run of ticks that starts outside ForcedBreak ever
/// reaches it, whatever the load does.
pub proof fn law_disabled_force_never_reaches_forced_break(start: AppState, levels: Seq<LoadLevel>)
    requires
        start != AppState::ForcedBreak,
    ensures
        run_states(start, levels, false) != AppState::ForcedBreak,
    decreases levels.len(),
{
    if levels.len() > 0 {
        law_disabled_force_never_reaches_forced_break(start, levels.drop_last());
    }
}

/// A forced break holds as long as the load is not below the unlock threshold,
/// whether forcing is enabled or not.
pub proof fn law_forced_break_holds_until_unlock(level: LoadLevel, force_enabled: bool)
    requires
        !level.below_unlock,
    ensures
        spec_next_state(AppState::ForcedBreak, level, force_enabled) == AppState::ForcedBreak,
{
}

/// Once the load is below the unlock threshold a forced break ends, into the
/// stage that the load alone calls for.
pub proof fn law_forced_break_released_below_unlock(level: LoadLevel, force_enabled: bool)
    requires
        level.below_unlock,
    ensures
        spec_next_state(AppState::ForcedBreak, level, force_enabled) == spec_classify(level),
        spec_next_state(AppState::ForcedBreak, level, force_enabled) != AppState::ForcedBreak,
{
}

/// A forced break starts only with forcing enabled and the load at the forced threshold.
pub proof fn law_forced_break_starts_only_at_forced_threshold(
    prev: AppState,
    level: LoadLevel,
    force_enabled: bool,
)
    requires
        prev != AppState::ForcedBreak,
        spec_next_state(prev, level, force_enabled) == AppState::ForcedBreak,
    ensures
        force_enabled,
        level.reaches_forced,
{
}

/// Outside a forced break, the stage is Dimming exactly when the load reaches the
/// dim threshold, and Working otherwise.
pub proof fn law_dimming_follows_dim_threshold(prev: AppState, level: LoadLevel, force_enabled: bool)
    requires
        spec_next_state(prev, level, force_enabled) != AppState::ForcedBreak,
    ensures
        spec_next_state(prev, level, force_enabled) == AppState::Dimming <==> level.reaches_dim,
        spec_next_state(prev, level, force_enabled) == AppState::Working <==> !level.reaches_dim,
{
}

} // verus!
