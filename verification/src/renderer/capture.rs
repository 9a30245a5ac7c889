use vstd::prelude::*;

verus! {

/// The fallback background source: it never holds a captured frame, so the
/// shader always draws its procedural background. It is what is used without
/// capture consent, on an old OS or when screen capture cannot be set up.
#[derive(Debug, Clone, Copy, PartialEq, Eq, Structural)]
pub struct ProceduralCaptureSource;

impl ProceduralCaptureSource {
    pub fn new() -> (s: ProceduralCaptureSource)
        ensures
            s == ProceduralCaptureSource,
    {
        ProceduralCaptureSource
    }

    /// Never a real capture.
    pub fn has_capture(&self) -> (b: bool)
        ensures
            !b,
    {
        false
    }

    /// Activation means nothing for the procedural source.
    pub fn set_active(&mut self, active: bool)
        ensures
            *final(self) == *old(self),
    {
    }
}

impl Default for ProceduralCaptureSource {
    fn default() -> (s: ProceduralCaptureSource)
        ensures
            s == ProceduralCaptureSource,
    {
        ProceduralCaptureSource::new()
    }
}


/// Which background source the renderer runs with.
#[derive(Debug, Clone, Copy, PartialEq, Eq, Structural)]
pub enum CaptureChoice {
    /// Real capture of the target window (pixels stay in GPU memory).
    Screen,
    /// The procedural fallback.
    Procedural,
}

/// Screen capture is used only with a capture target, the user's consent and a
/// capture source that could actually be built; in every other case the
/// renderer falls back to the procedural background.
pub open spec fn spec_capture_choice(has_target: bool, consent: bool, screen_built: bool) -> CaptureChoice {
    if has_target && consent && screen_built {
        CaptureChoice::Screen
    } else {
        CaptureChoice::Procedural
    }
}

/// Whether building a screen capture source is attempted at all: only with a
/// target and consent.
pub fn should_try_screen_capture(has_target: bool, consent: bool) -> (b: bool)
    ensures
        b == (has_target && consent),
{
    has_target && consent
}

/// The source to run with, once building a screen source was tried
/// (`screen_built`: it was tried and succeeded).
pub fn capture_choice(has_target: bool, consent: bool, screen_built: bool) -> (c: CaptureChoice)
    ensures
        c == spec_capture_choice(has_target, consent, screen_built),
{
    if has_target && consent && screen_built {
        CaptureChoice::Screen
    } else {
        CaptureChoice::Procedural
    }
}

/// Without consent, or without a target, the renderer never captures the screen.
pub proof fn law_no_consent_no_target_means_procedural(has_target: bool, consent: bool, screen_built: bool)
    ensures
        !consent ==> spec_capture_choice(has_target, consent, screen_built) == CaptureChoice::Procedural,
        !has_target ==> spec_capture_choice(has_target, consent, screen_built) == CaptureChoice::Procedural,
        spec_capture_choice(has_target, consent, screen_built) == CaptureChoice::Screen ==> has_target
            && consent,
{
}

/// Time budget of one rendered frame (about 60 frames per second).
pub const FRAME_BUDGET_NANOS: u64 = 16_000_000;

/// What the render thread does in one pass of its loop.
#[derive(Debug, Clone, Copy, PartialEq, Eq, Structural)]
pub struct FrameStep {
    /// `Some(b)`: switch the capture session on (`true`) or off (`false`) first.
    pub capture_active: Option<bool>,
    /// Whether a frame is painted (present happens either way).
    pub paint: bool,
    /// How long to sleep after presenting, in nanoseconds.
    pub sleep_nanos: u64,
}

/// The decisions of one pass of the render loop. `latest_on_target` is the
/// `on_target` flag of the latest frame pushed by the controller (`None` before
/// the first one); `elapsed_nanos` is the time the pass has taken so far.
/// Capture follows the frame's `on_target` (capture only while on target, stop
/// as soon as it leaves); a pass without a frame paints nothing; the pass sleeps
/// out the rest of the frame budget.
pub fn frame_step(latest_on_target: Option<bool>, elapsed_nanos: u64) -> (s: FrameStep)
    ensures
        s.capture_active == latest_on_target,
        s.paint == (latest_on_target is Some),
        s.sleep_nanos == (if elapsed_nanos < FRAME_BUDGET_NANOS {
            (FRAME_BUDGET_NANOS - elapsed_nanos) as u64
        } else {
            0
        }),
{
    let sleep_nanos = if elapsed_nanos < FRAME_BUDGET_NANOS {
        FRAME_BUDGET_NANOS - elapsed_nanos
    } else {
        0
    };
    match latest_on_target {
        Some(on_target) => FrameStep { capture_active: Some(on_target), paint: true, sleep_nanos },
        None => FrameStep { capture_active: None, paint: false, sleep_nanos },
    }
}

/// The capture state the render thread leaves behind when it stops: off, so
/// that no captured texture outlives the renderer.
pub fn capture_active_after_stop() -> (b: bool)
    ensures
        !b,
{
    false
}

/// `(take_frame, sample_capture)` of a frame: take only on target, sample only
/// on target with a capture at hand.
pub open spec fn spec_capture_use(on_target: bool, source_has_capture: bool) -> (bool, bool) {
    (on_target, on_target && source_has_capture)
}

/// How a frame uses the capture source: `(take_frame, sample_capture)`. A
/// captured frame is taken only while on target, and the shader samples a
/// capture only while on target and the source really has one.
pub fn capture_use(on_target: bool, source_has_capture: bool) -> (r: (bool, bool))
    ensures
        r == spec_capture_use(on_target, source_has_capture),
{
    (on_target, on_target && source_has_capture)
}

/// Off target, a captured frame is neither taken nor sampled, and a sampled
/// capture always comes from a source that has one.
pub proof fn law_capture_only_on_target(on_target: bool, source_has_capture: bool)
    ensures
        !spec_capture_use(false, source_has_capture).0,
        !spec_capture_use(false, source_has_capture).1,
        spec_capture_use(on_target, source_has_capture).1 ==> on_target && source_has_capture,
{
}

} // verus!
