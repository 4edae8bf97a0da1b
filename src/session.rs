//! The recording-session state machine: Idle -> Recording -> Processing -> Idle.
use vstd::prelude::*;

verus! {

#[derive(Clone, Copy, Debug, PartialEq, Eq, Structural)]
pub enum RecordingState {
    Idle,
    Recording,
    Processing,
}

/// What a transition asks of the capture engine.
#[derive(Clone, Copy, Debug, PartialEq, Eq, Structural)]
pub enum SessionCommand {
    StartCapture,
    StopCapture,
}

/// `request_start`: valid only in Idle; otherwise a no-op.
pub open spec fn start_spec(s: RecordingState) -> (RecordingState, Option<SessionCommand>) {
    match s {
        RecordingState::Idle => (RecordingState::Recording, Some(SessionCommand::StartCapture)),
        _ => (s, None),
    }
}

/// `request_stop`: valid only in Recording; otherwise a no-op.
pub open spec fn stop_spec(s: RecordingState) -> (RecordingState, Option<SessionCommand>) {
    match s {
        RecordingState::Recording => (RecordingState::Processing, Some(SessionCommand::StopCapture)),
        _ => (s, None),
    }
}

/// `complete`: Processing returns to Idle; no other transition is valid.
pub open spec fn complete_spec(s: RecordingState) -> RecordingState {
    match s {
        RecordingState::Processing => RecordingState::Idle,
        _ => s,
    }
}

/// The serialised owner of the recording state.
pub struct RecordingSession {
    state: RecordingState,
}

impl View for RecordingSession {
    type V = RecordingState;

    closed spec fn view(&self) -> RecordingState {
        self.state
    }
}

impl RecordingSession {
    pub fn new() -> (r: RecordingSession)
        ensures
            r@ == RecordingState::Idle,
    {
        RecordingSession { state: RecordingState::Idle }
    }

    pub fn state(&self) -> (r: RecordingState)
        ensures
            r == self@,
    {
        self.state
    }

    /// Idle -> Recording, asking for capture to start; a no-op elsewhere,
    /// so a duplicate press never starts a second capture.
    pub fn request_start(&mut self) -> (r: Option<SessionCommand>)
        ensures
            (final(self)@, r) == start_spec(old(self)@),
    {
        match self.state {
            RecordingState::Idle => {
                self.state = RecordingState::Recording;
                Some(SessionCommand::StartCapture)
            },
            _ => None,
        }
    }

    /// Recording -> Processing, asking for capture to stop; a no-op elsewhere,
    /// so a stray release is harmless.
    pub fn request_stop(&mut self) -> (r: Option<SessionCommand>)
        ensures
            (final(self)@, r) == stop_spec(old(self)@),
    {
        match self.state {
            RecordingState::Recording => {
                self.state = RecordingState::Processing;
                Some(SessionCommand::StopCapture)
            },
            _ => None,
        }
    }

    /// Processing -> Idle once the workflow has finished, whatever its outcome.
    pub fn complete(&mut self)
        ensures
            final(self)@ == complete_spec(old(self)@),
    {
        if let RecordingState::Processing = self.state {
            self.state = RecordingState::Idle;
        }
    }
}

} // verus!
