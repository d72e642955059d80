use nanowhisper::shortcut::KeyEvent;
use nanowhisper::shortcut::escape_cancels;
use nanowhisper::shortcut::{toggle_action, PressFilter, RecordingAction, DEBOUNCE_MS};

#[test]
fn first_press_starts_a_toggle() {
    let mut f = PressFilter::new();
    assert!(f.on_press(1_700_000_000_000));
    assert!(f.processing);
    assert_eq!(f.last_press_ms, 1_700_000_000_000);
}

#[test]
fn press_within_debounce_is_ignored() {
    let mut f = PressFilter::new();
    assert!(f.on_press(10_000));
    f.finish();
    assert!(!f.on_press(10_000 + DEBOUNCE_MS - 1));
    assert_eq!(f.last_press_ms, 10_000);
    assert!(f.on_press(10_000 + DEBOUNCE_MS));
}

#[test]
fn press_while_processing_is_ignored_but_recorded() {
    let mut f = PressFilter::new();
    assert!(f.on_press(10_000));
    assert!(!f.on_press(11_000));
    assert_eq!(f.last_press_ms, 11_000);
    assert!(f.processing);
    f.finish();
    assert!(!f.on_press(11_200));
    assert!(f.on_press(11_500));
}

#[test]
fn toggling_switches_recording() {
    assert_eq!(toggle_action(true), RecordingAction::StopAndTranscribe);
    assert_eq!(toggle_action(false), RecordingAction::StartRecording);
}

#[test]
fn release_starts_nothing() {
    let mut f = PressFilter::new();
    assert!(!f.on_event(KeyEvent::Released, 1_000_000));
    assert_eq!(f.last_press_ms, 0);
    assert!(!f.processing);
    assert!(f.on_event(KeyEvent::Pressed, 1_000_000));
}

#[test]
fn clock_going_back_wraps_like_release_build() {
    let mut f = PressFilter { last_press_ms: 10_000, processing: false };
    // 5_000 - 10_000 wraps to a huge elapsed time, so the press counts.
    assert!(f.on_press(5_000));
    assert_eq!(f.last_press_ms, 5_000);
}

#[test]
fn escape_cancels_except_on_release() {
    assert!(escape_cancels(KeyEvent::Pressed));
    assert!(!escape_cancels(KeyEvent::Released));
}
