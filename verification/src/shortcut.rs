//! What a press of the global recording shortcut does: presses that come
//! too soon after the previous one are dropped, and no toggle starts while
//! another is still running.
use vstd::prelude::*;

verus! {

/// Presses closer than this many milliseconds to the previous one are ignored.
pub const DEBOUNCE_MS: u64 = 500;

/// The state the shortcut handler keeps between presses.
#[derive(Clone, Copy, Debug)]
pub struct PressFilter {
    /// When the last press that got past the debounce happened, in
    /// milliseconds since the Unix epoch.
    pub last_press_ms: u64,
    /// Whether a toggle of the recording is running.
    pub processing: bool,
}

/// Milliseconds from `last_ms` to `now_ms`, counted modulo 2^64 as the
/// unsigned subtraction of a release build does when the clock went back.
pub open spec fn elapsed_ms(now_ms: u64, last_ms: u64) -> u64 {
    vstd::wrapping::u64_specs::wrapping_sub(now_ms, last_ms)
}

/// The filter after a press at `now_ms`, and whether that press starts a
/// toggle of the recording.
pub open spec fn press(g: PressFilter, now_ms: u64) -> (PressFilter, bool) {
    if elapsed_ms(now_ms, g.last_press_ms) < DEBOUNCE_MS {
        (g, false)
    } else if g.processing {
        (PressFilter { last_press_ms: now_ms, processing: true }, false)
    } else {
        (PressFilter { last_press_ms: now_ms, processing: true }, true)
    }
}

/// The filter once the running toggle has finished.
pub open spec fn finished(g: PressFilter) -> PressFilter {
    PressFilter { last_press_ms: g.last_press_ms, processing: false }
}

/// Whether a key event is the key going down or coming up.
#[derive(Clone, Copy, Debug, PartialEq, Eq, Structural)]
pub enum KeyEvent {
    Pressed,
    Released,
}

/// The filter after a shortcut event at `now_ms`, and whether the event
/// starts a toggle: only a key going down counts as a press.
pub open spec fn shortcut_event(g: PressFilter, event: KeyEvent, now_ms: u64) -> (PressFilter, bool) {
    match event {
        KeyEvent::Pressed => press(g, now_ms),
        KeyEvent::Released => (g, false),
    }
}

/// Whether an event of the Escape key cancels the recording: any event but
/// the key coming up.
pub fn escape_cancels(event: KeyEvent) -> (r: bool)
    ensures
        r == (event != KeyEvent::Released),
{
    match event {
        KeyEvent::Pressed => true,
        KeyEvent::Released => false,
    }
}

/// What a toggle of the recording does.
#[derive(Clone, Copy, Debug, PartialEq, Eq, Structural)]
pub enum RecordingAction {
    /// Show the overlay and start capturing audio.
    StartRecording,
    /// Stop capturing and send the audio for transcription.
    StopAndTranscribe,
}

/// What toggling does: stop a running recording, or start one.
pub fn toggle_action(is_recording: bool) -> (a: RecordingAction)
    ensures
        a == (if is_recording {
            RecordingAction::StopAndTranscribe
        } else {
            RecordingAction::StartRecording
        }),
{
    if is_recording {
        RecordingAction::StopAndTranscribe
    } else {
        RecordingAction::StartRecording
    }
}

impl PressFilter {
    /// A filter that has seen no press and runs no toggle.
    pub fn new() -> (g: Self)
        ensures
            g.last_press_ms == 0,
            !g.processing,
    {
        PressFilter { last_press_ms: 0, processing: false }
    }

    /// Handles a press of the shortcut at `now_ms`; returns whether it
    /// starts a toggle of the recording.
    pub fn on_press(&mut self, now_ms: u64) -> (starts: bool)
        ensures
            (*final(self), starts) == press(*old(self), now_ms),
    {
        if now_ms.wrapping_sub(self.last_press_ms) < DEBOUNCE_MS {
            return false;
        }
        self.last_press_ms = now_ms;
        if self.processing {
            return false;
        }
        self.processing = true;
        true
    }

    /// Handles an event of the shortcut key at `now_ms`; returns whether it
    /// starts a toggle of the recording.
    pub fn on_event(&mut self, event: KeyEvent, now_ms: u64) -> (starts: bool)
        ensures
            (*final(self), starts) == shortcut_event(*old(self), event, now_ms),
    {
        match event {
            KeyEvent::Pressed => self.on_press(now_ms),
            KeyEvent::Released => false,
        }
    }

    /// Records that the running toggle has finished.
    pub fn finish(&mut self)
        ensures
            *final(self) == finished(*old(self)),
    {
        self.processing = false;
    }
}

/// Once a press at `t1` starts a toggle, every press before `t1 + DEBOUNCE_MS`
/// is ignored, whether or not the toggle has finished meanwhile.
pub proof fn lemma_debounced_press_ignored(g: PressFilter, t1: u64, t2: u64, done: bool)
    requires
        press(g, t1).1,
        t1 <= t2 < t1 + DEBOUNCE_MS,
    ensures
        !press(
            if done {
                finished(press(g, t1).0)
            } else {
                press(g, t1).0
            },
            t2,
        ).1,
{
}

/// While a toggle runs, no press starts another.
pub proof fn lemma_no_toggle_while_processing(g: PressFilter, t: u64)
    requires
        g.processing,
    ensures
        !press(g, t).1,
        press(g, t).0.processing,
{
}

/// Releasing the key neither starts a toggle nor changes the filter.
pub proof fn lemma_release_does_nothing(g: PressFilter, t: u64)
    ensures
        shortcut_event(g, KeyEvent::Released, t) == (g, false),
{
}

/// When no toggle runs, a press at least `DEBOUNCE_MS` after the last one
/// starts a toggle.
pub proof fn lemma_idle_press_toggles(g: PressFilter, t: u64)
    requires
        !g.processing,
        t >= g.last_press_ms + DEBOUNCE_MS,
    ensures
        press(g, t).1,
        press(g, t).0 == (PressFilter { last_press_ms: t, processing: true }),
{
}

} // verus!
