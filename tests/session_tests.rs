use convey::input::{
    apply_key, edge_command, gather, latest_event, trigger_source, FnKeyMonitor, FnKeyState,
    InputEventAggregator, ModifierTap, TriggerSource,
};
use convey::session::{RecordingSession, RecordingState, SessionCommand};
use std::sync::mpsc::channel;

#[test]
fn session_transitions_and_no_ops() {
    let mut s = RecordingSession::new();
    assert_eq!(s.request_stop(), None);
    assert_eq!(s.request_start(), Some(SessionCommand::StartCapture));
    assert_eq!(s.request_start(), None);
    assert_eq!(s.state(), RecordingState::Recording);
    s.complete();
    assert_eq!(s.state(), RecordingState::Recording);
    assert_eq!(s.request_stop(), Some(SessionCommand::StopCapture));
    assert_eq!(s.request_stop(), None);
    s.complete();
    assert_eq!(s.state(), RecordingState::Idle);
}

#[test]
fn poll_folds_to_latest_event() {
    assert_eq!(latest_event(&vec![]), None);
    assert_eq!(latest_event(&vec![FnKeyState::Pressed, FnKeyState::Released]), Some(FnKeyState::Released));
    let agg = InputEventAggregator::new(TriggerSource::ComboKey);
    assert_eq!(agg.active_source(), TriggerSource::ComboKey);
    assert_eq!(agg.poll(RecordingState::Idle, &vec![FnKeyState::Released, FnKeyState::Pressed]), Some(SessionCommand::StartCapture));
    assert_eq!(agg.poll(RecordingState::Idle, &vec![FnKeyState::Pressed, FnKeyState::Released]), None);
    assert_eq!(agg.poll(RecordingState::Processing, &vec![FnKeyState::Pressed]), None);
}

#[test]
fn edge_rule() {
    assert_eq!(edge_command(RecordingState::Idle, FnKeyState::Pressed), Some(SessionCommand::StartCapture));
    assert_eq!(edge_command(RecordingState::Recording, FnKeyState::Pressed), None);
    assert_eq!(edge_command(RecordingState::Recording, FnKeyState::Released), Some(SessionCommand::StopCapture));
    assert_eq!(edge_command(RecordingState::Idle, FnKeyState::Released), None);
}

#[test]
fn trigger_source_from_hotkey() {
    assert_eq!(trigger_source("Fn"), TriggerSource::ModifierTap);
    assert_eq!(trigger_source("GLOBE"), TriggerSource::ModifierTap);
    assert_eq!(trigger_source("Ctrl+Space"), TriggerSource::ComboKey);
    assert_eq!(trigger_source("fnx"), TriggerSource::ComboKey);
}

#[test]
fn modifier_tap_reports_changes_only() {
    let mut tap = ModifierTap::new();
    assert_eq!(tap.on_flags_changed(0), None);
    assert_eq!(tap.on_flags_changed(0x800000 | 0x100), Some(FnKeyState::Pressed));
    assert_eq!(tap.on_flags_changed(0x800000), None);
    assert_eq!(tap.on_flags_changed(0x100), Some(FnKeyState::Released));
}

#[test]
fn monitor_drains_pending_events() {
    let (tx, rx) = channel();
    let monitor = FnKeyMonitor::new(rx);
    assert_eq!(monitor.try_recv(), None);
    tx.send(FnKeyState::Pressed).unwrap();
    tx.send(FnKeyState::Released).unwrap();
    tx.send(FnKeyState::Pressed).unwrap();
    assert_eq!(monitor.try_recv(), Some(FnKeyState::Pressed));
    let mut window = Vec::new();
    while gather(&mut window, monitor.try_recv()) {}
    assert_eq!(window, vec![FnKeyState::Released, FnKeyState::Pressed]);
    let mut empty = Vec::new();
    assert!(!gather(&mut empty, monitor.try_recv()));
    assert!(empty.is_empty());
}

#[test]
fn starts_equal_idle_to_recording_transitions() {
    let mut s = RecordingSession::new();
    let events = [
        FnKeyState::Pressed, FnKeyState::Pressed, FnKeyState::Released, FnKeyState::Released,
        FnKeyState::Pressed,
    ];
    let mut starts = 0;
    let mut entered = 0;
    let mut open = 0i32;
    for (i, e) in events.iter().enumerate() {
        let before = s.state();
        match apply_key(&mut s, *e) {
            Some(SessionCommand::StartCapture) => { starts += 1; open += 1; }
            Some(SessionCommand::StopCapture) => open -= 1,
            None => {}
        }
        if before == RecordingState::Idle && s.state() == RecordingState::Recording {
            entered += 1;
        }
        assert!(open <= 1);
        if i == 3 {
            s.complete();
        }
    }
    assert_eq!(starts, 2);
    assert_eq!(starts, entered);
    assert_eq!(open, 1);
}

#[test]
fn gather_appends_until_empty() {
    let mut w = vec![FnKeyState::Pressed];
    assert!(gather(&mut w, Some(FnKeyState::Released)));
    assert_eq!(w, vec![FnKeyState::Pressed, FnKeyState::Released]);
    assert!(!gather(&mut w, None));
    assert_eq!(w.len(), 2);
}

#[test]
fn long_window_acts_on_latest() {
    let (tx, rx) = channel();
    let monitor = FnKeyMonitor::new(rx);
    for _ in 0..300 {
        tx.send(FnKeyState::Released).unwrap();
    }
    tx.send(FnKeyState::Pressed).unwrap();
    let mut window = Vec::new();
    while gather(&mut window, monitor.try_recv()) {}
    assert_eq!(window.len(), 301);
    let agg = InputEventAggregator::new(TriggerSource::ModifierTap);
    assert_eq!(agg.poll(RecordingState::Idle, &window), Some(SessionCommand::StartCapture));
}
