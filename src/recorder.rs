//! The recording switch and the sensor's decision on each input event.

use vstd::prelude::*;
use vstd::string::*;

verus! {

/// Whether key presses are being captured.
#[derive(Clone, Copy, Debug, PartialEq, Eq)]
pub enum RecordingState {
    Idle,
    Recording,
}

/// The kind of a global input event, as far as the sensor cares.
#[derive(Clone, Copy, Debug, PartialEq, Eq)]
pub enum InputKind {
    KeyPress,
    /// Key releases, mouse moves and clicks, wheel turns.
    Other,
}

impl RecordingState {
    /// The initial state.
    pub fn new() -> (r: RecordingState)
        ensures
            r is Idle,
    {
        RecordingState::Idle
    }

    /// The start command.
    pub fn start(&mut self)
        ensures
            *final(self) is Recording,
    {
        *self = RecordingState::Recording;
    }

    /// The stop command.
    pub fn stop(&mut self)
        ensures
            *final(self) is Idle,
    {
        *self = RecordingState::Idle;
    }

    pub fn is_recording(&self) -> (r: bool)
        ensures
            r == (*self is Recording),
    {
        match self {
            RecordingState::Recording => true,
            RecordingState::Idle => false,
        }
    }

    /// The status line shown to the operator.
    pub fn status_label(&self) -> (r: String)
        ensures
            r@ == if *self is Recording {
                "Status: Recording"@
            } else {
                "Status: Idle"@
            },
    {
        match self {
            RecordingState::Recording => String::from_str("Status: Recording"),
            RecordingState::Idle => String::from_str("Status: Idle"),
        }
    }
}

/// The sensor's decision: a key press while recording emits the current
/// time; every other event, and everything while idle, emits nothing. The
/// key's identity is never an input.
pub fn capture(recording: bool, kind: InputKind, now_ms: i64) -> (r: Option<i64>)
    ensures
        r == if recording && kind is KeyPress {
            Some(now_ms)
        } else {
            None
        },
{
    if recording {
        match kind {
            InputKind::KeyPress => Some(now_ms),
            InputKind::Other => None,
        }
    } else {
        None
    }
}

} // verus!
