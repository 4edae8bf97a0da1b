//! Trigger-key events: the modifier-key tap's own state, the per-poll fold to
//! the latest event, and edge-triggered requests to the recording session.
use crate::session::{
    complete_spec, start_spec, stop_spec, RecordingSession, RecordingState, SessionCommand,
};
use crate::text::{equals_folded, folded};
use std::sync::mpsc::Receiver;
use vstd::prelude::*;

verus! {

/// Modifier flag bit of the Fn (Globe) key in a flags-changed event.
pub const FN_KEY_MODIFIER: u64 = 0x800000;

/// A trigger-key transition.
#[derive(Clone, Copy, Debug, PartialEq, Eq, Structural)]
pub enum FnKeyState {
    Pressed,
    Released,
}

/// Which input mechanism delivers trigger events.
#[derive(Clone, Copy, Debug, PartialEq, Eq, Structural)]
pub enum TriggerSource {
    /// A registered system-wide key combination.
    ComboKey,
    /// A tap on a single modifier key's state.
    ModifierTap,
}

/// The source a configured hotkey calls for: "fn" or "globe", in any case,
/// name the modifier tap; anything else is a key combination.
pub open spec fn source_for(hotkey: Seq<char>) -> TriggerSource {
    if folded(hotkey) == seq!['f', 'n'] || folded(hotkey) == seq!['g', 'l', 'o', 'b', 'e'] {
        TriggerSource::ModifierTap
    } else {
        TriggerSource::ComboKey
    }
}

pub fn trigger_source(hotkey: &str) -> (r: TriggerSource)
    ensures
        r == source_for(hotkey@),
{
    proof {
        reveal_strlit("fn");
        reveal_strlit("globe");
        assert("fn"@ =~= seq!['f', 'n']);
        assert("globe"@ =~= seq!['g', 'l', 'o', 'b', 'e']);
    }
    if equals_folded(hotkey, "fn") || equals_folded(hotkey, "globe") {
        TriggerSource::ModifierTap
    } else {
        TriggerSource::ComboKey
    }
}

/// The most recent of the events gathered in one poll window.
pub open spec fn latest_spec(events: Seq<FnKeyState>) -> Option<FnKeyState> {
    if events.len() == 0 {
        None
    } else {
        Some(events.last())
    }
}

pub fn latest_event(events: &Vec<FnKeyState>) -> (r: Option<FnKeyState>)
    ensures
        r == latest_spec(events@),
{
    if events.len() == 0 {
        None
    } else {
        Some(events[events.len() - 1])
    }
}

/// Edge triggering: a press matters only when Idle, a release only while
/// Recording.
pub open spec fn edge_spec(state: RecordingState, e: FnKeyState) -> Option<SessionCommand> {
    match (state, e) {
        (RecordingState::Idle, FnKeyState::Pressed) => Some(SessionCommand::StartCapture),
        (RecordingState::Recording, FnKeyState::Released) => Some(SessionCommand::StopCapture),
        _ => None,
    }
}

pub fn edge_command(state: RecordingState, e: FnKeyState) -> (r: Option<SessionCommand>)
    ensures
        r == edge_spec(state, e),
{
    match (state, e) {
        (RecordingState::Idle, FnKeyState::Pressed) => Some(SessionCommand::StartCapture),
        (RecordingState::Recording, FnKeyState::Released) => Some(SessionCommand::StopCapture),
        _ => None,
    }
}

/// Merges the active source's events into session requests.
pub struct InputEventAggregator {
    source: TriggerSource,
}

impl InputEventAggregator {
    pub fn new(source: TriggerSource) -> (r: InputEventAggregator)
        ensures
            r.source() == source,
    {
        InputEventAggregator { source }
    }

    pub closed spec fn source(&self) -> TriggerSource {
        self.source
    }

    pub fn active_source(&self) -> (r: TriggerSource)
        ensures
            r == self.source(),
    {
        self.source
    }

    /// One poll: folds the window's events to the latest and applies the
    /// edge rule against the current state.
    pub fn poll(&self, state: RecordingState, pending: &Vec<FnKeyState>) -> (r: Option<
        SessionCommand,
    >)
        ensures
            r == match latest_spec(pending@) {
                None => None,
                Some(e) => edge_spec(state, e),
            },
    {
        match latest_event(pending) {
            None => None,
            Some(e) => edge_command(state, e),
        }
    }
}

/// Whether the Fn modifier bit is set in an event's flags.
pub open spec fn fn_flag(flags: u64) -> bool {
    flags & FN_KEY_MODIFIER != 0
}

/// The modifier tap's memory of the last Fn state it reported, owned by the
/// tap for its lifetime.
pub struct ModifierTap {
    fn_down: bool,
}

impl ModifierTap {
    pub fn new() -> (r: ModifierTap)
        ensures
            !r.is_down(),
    {
        ModifierTap { fn_down: false }
    }

    pub closed spec fn is_down(&self) -> bool {
        self.fn_down
    }

    /// Reports a press or release when the Fn bit changes, nothing otherwise.
    pub fn on_flags_changed(&mut self, flags: u64) -> (r: Option<FnKeyState>)
        ensures
            final(self).is_down() == fn_flag(flags),
            r == if fn_flag(flags) == old(self).is_down() {
                None
            } else if fn_flag(flags) {
                Some(FnKeyState::Pressed)
            } else {
                Some(FnKeyState::Released)
            },
    {
        let down = flags & FN_KEY_MODIFIER != 0;
        if down == self.fn_down {
            return None;
        }
        self.fn_down = down;
        if down {
            Some(FnKeyState::Pressed)
        } else {
            Some(FnKeyState::Released)
        }
    }
}

/// std's channel receiver, carried opaquely.
#[verifier::external_type_specification]
#[verifier::external_body]
#[verifier::reject_recursive_types(T)]
pub struct ExReceiver<T>(Receiver<T>);

/// Relies on std's `Receiver::try_recv`: a pending event if one is queued.
#[verifier::external_body]
fn receive_pending(rx: &Receiver<FnKeyState>) -> Option<FnKeyState> {
    rx.try_recv().ok()
}

/// The receiving end of the modifier tap's event channel.
pub struct FnKeyMonitor {
    receiver: Receiver<FnKeyState>,
}

impl FnKeyMonitor {
    pub fn new(receiver: Receiver<FnKeyState>) -> FnKeyMonitor {
        FnKeyMonitor { receiver }
    }

    /// The next pending event, if any, without blocking.
    pub fn try_recv(&self) -> Option<FnKeyState> {
        receive_pending(&self.receiver)
    }

}

/// One step of draining a poll window: a received event is appended and
/// draining goes on; an empty channel ends it with the window unchanged.
pub fn gather(pending: &mut Vec<FnKeyState>, next: Option<FnKeyState>) -> (more: bool)
    ensures
        next matches Some(e) ==> final(pending)@ == old(pending)@.push(e) && more,
        next is None ==> final(pending)@ == old(pending)@ && !more,
{
    match next {
        Some(e) => {
            pending.push(e);
            true
        },
        None => false,
    }
}

/// Inputs that drive the session: trigger events and workflow completion.
#[derive(Clone, Copy, Debug, PartialEq, Eq, Structural)]
pub enum DriverEvent {
    Key(FnKeyState),
    WorkflowDone,
}

/// One step of the session under an input, with the capture command issued.
pub open spec fn drive(s: RecordingState, e: DriverEvent) -> (RecordingState, Option<SessionCommand>) {
    match e {
        DriverEvent::Key(k) => match edge_spec(s, k) {
            Some(SessionCommand::StartCapture) => start_spec(s),
            Some(SessionCommand::StopCapture) => stop_spec(s),
            None => (s, None),
        },
        DriverEvent::WorkflowDone => (complete_spec(s), None),
    }
}

/// Applies one trigger event to the session through the edge rule.
pub fn apply_key(session: &mut RecordingSession, e: FnKeyState) -> (r: Option<SessionCommand>)
    ensures
        (final(session)@, r) == drive(old(session)@, DriverEvent::Key(e)),
{
    match edge_command(session.state(), e) {
        Some(SessionCommand::StartCapture) => session.request_start(),
        Some(SessionCommand::StopCapture) => session.request_stop(),
        None => None,
    }
}

/// Running a sequence of inputs from Idle: the final state, the number of
/// capture starts issued, the number of Idle -> Recording transitions, and
/// the number of capture sessions left open (starts minus stops).
pub open spec fn tally(events: Seq<DriverEvent>) -> (RecordingState, nat, nat, int)
    decreases events.len(),
{
    if events.len() == 0 {
        (RecordingState::Idle, 0, 0, 0)
    } else {
        let (s, starts, entered, open) = tally(events.drop_last());
        let (s2, cmd) = drive(s, events.last());
        (
            s2,
            starts + if cmd == Some(SessionCommand::StartCapture) { 1nat } else { 0nat },
            entered + if s == RecordingState::Idle && s2 == RecordingState::Recording {
                1nat
            } else {
                0nat
            },
            open + if cmd == Some(SessionCommand::StartCapture) {
                1int
            } else if cmd == Some(SessionCommand::StopCapture) {
                -1int
            } else {
                0int
            },
        )
    }
}

/// For every sequence of inputs from Idle, the capture starts issued equal
/// the Idle -> Recording transitions, and at most one capture session is
/// open: exactly one while Recording, none otherwise.
pub proof fn starts_match_transitions(events: Seq<DriverEvent>)
    ensures
        tally(events).1 == tally(events).2,
        0 <= tally(events).3 <= 1,
        tally(events).3 == 1 <==> tally(events).0 == RecordingState::Recording,
    decreases events.len(),
{
    if events.len() > 0 {
        starts_match_transitions(events.drop_last());
    }
}

} // verus!
