use attention_blackhole::renderer::capture::ProceduralCaptureSource;
use attention_blackhole::renderer::overlay::OverlaySize;

#[test]
fn procedural_source_default() {
    let src = ProceduralCaptureSource::default();
    assert!(!src.has_capture());
}

#[test]
fn procedural_source_never_captures_when_activated() {
    let mut src = ProceduralCaptureSource::new();
    assert!(!src.has_capture());
    src.set_active(true);
    assert!(!src.has_capture());
    src.set_active(false);
    assert!(!src.has_capture());
    assert_eq!(src, ProceduralCaptureSource::default());
}

#[test]
fn overlay_size_is_a_plain_value() {
    let s = OverlaySize { width: 1920, height: 1080 };
    let t = s;
    assert_eq!(s, t);
    assert_eq!(t.width * t.height, 2_073_600);
}

use attention_blackhole::renderer::capture::{
    capture_active_after_stop, capture_choice, capture_use, frame_step, should_try_screen_capture,
    CaptureChoice, FrameStep, FRAME_BUDGET_NANOS,
};

#[test]
fn capture_choice_falls_back_without_target_consent_or_source() {
    assert!(should_try_screen_capture(true, true));
    assert!(!should_try_screen_capture(true, false));
    assert!(!should_try_screen_capture(false, true));
    assert_eq!(capture_choice(true, true, true), CaptureChoice::Screen);
    assert_eq!(capture_choice(true, true, false), CaptureChoice::Procedural);
    assert_eq!(capture_choice(true, false, true), CaptureChoice::Procedural);
    assert_eq!(capture_choice(false, true, true), CaptureChoice::Procedural);
    assert_eq!(capture_choice(false, false, false), CaptureChoice::Procedural);
}

#[test]
fn frame_step_follows_on_target_and_budget() {
    assert_eq!(
        frame_step(Some(true), 4_000_000),
        FrameStep { capture_active: Some(true), paint: true, sleep_nanos: 12_000_000 }
    );
    assert_eq!(
        frame_step(Some(false), 0),
        FrameStep { capture_active: Some(false), paint: true, sleep_nanos: FRAME_BUDGET_NANOS }
    );
    assert_eq!(
        frame_step(None, 20_000_000),
        FrameStep { capture_active: None, paint: false, sleep_nanos: 0 }
    );
    assert_eq!(frame_step(None, FRAME_BUDGET_NANOS).sleep_nanos, 0);
    assert!(!capture_active_after_stop());
}

#[test]
fn capture_used_only_on_target() {
    assert_eq!(capture_use(true, true), (true, true));
    assert_eq!(capture_use(true, false), (true, false));
    assert_eq!(capture_use(false, true), (false, false));
    assert_eq!(capture_use(false, false), (false, false));
}

#[test]
fn overlay_size_from_metrics() {
    assert_eq!(OverlaySize::from_metrics(1920, 1080), Some(OverlaySize { width: 1920, height: 1080 }));
    assert_eq!(OverlaySize::from_metrics(0, 1080), None);
    assert_eq!(OverlaySize::from_metrics(1920, -1), None);
    assert_eq!(OverlaySize::from_metrics(1, 1), Some(OverlaySize { width: 1, height: 1 }));
}
