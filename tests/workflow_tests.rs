use convey::capture::{CaptureEngine, DeviceConfig, SampleKind};
use convey::input::{apply_key, FnKeyState};
use convey::pcm::SampleBlock;
use convey::session::{RecordingSession, RecordingState, SessionCommand};
use convey::settings::AppSettings;
use convey::voice::detect_and_strip_enter_command;
use convey::workflow::{
    apply_voice_command, options_from_settings, paste_mode, Action, PasteMode, Stage, Warning,
    WorkflowError, WorkflowOptions, WorkflowRun,
};

fn options(cleanup: bool, recognize: bool, auto_paste: bool, and_enter: bool) -> WorkflowOptions {
    WorkflowOptions {
        cleanup_enabled: cleanup,
        recognize_command: recognize,
        auto_paste,
        auto_paste_and_enter: and_enter,
        language: Some("en".to_string()),
    }
}

#[test]
fn voice_command_is_stripped() {
    let (t, submit) = detect_and_strip_enter_command("please call mom and press enter");
    assert_eq!(t, "please call mom");
    assert!(submit);
}

#[test]
fn no_false_positive_on_center() {
    let (t, submit) = detect_and_strip_enter_command("the meeting is at the center");
    assert_eq!(t, "the meeting is at the center");
    assert!(!submit);
}

#[test]
fn voice_command_ignores_case_and_punctuation() {
    assert_eq!(detect_and_strip_enter_command("Send it, And Hit Return!"), ("Send it,".to_string(), true));
    assert_eq!(detect_and_strip_enter_command("done then pressing enter..."), ("done".to_string(), true));
    assert_eq!(detect_and_strip_enter_command("and press enter"), ("".to_string(), true));
    assert_eq!(detect_and_strip_enter_command("press enter"), ("press enter".to_string(), false));
    assert_eq!(detect_and_strip_enter_command("grand press enter"), ("grand press enter".to_string(), false));
    assert_eq!(detect_and_strip_enter_command(""), ("".to_string(), false));
}

#[test]
fn recognition_off_keeps_text() {
    let o = options(false, false, false, false);
    assert_eq!(apply_voice_command(&o, &"x and press enter".to_string()), ("x and press enter".to_string(), false));
}

#[test]
fn paste_modes() {
    assert_eq!(paste_mode(&options(false, true, false, false), true), PasteMode::NoPaste);
    assert_eq!(paste_mode(&options(false, true, true, false), false), PasteMode::Paste);
    assert_eq!(paste_mode(&options(false, true, true, false), true), PasteMode::PasteAndSubmit);
    assert_eq!(paste_mode(&options(false, true, false, true), false), PasteMode::PasteAndSubmit);
}

#[test]
fn options_follow_settings() {
    let mut s = AppSettings::default();
    s.ai_processing_enabled = true;
    let o = options_from_settings(&s);
    assert!(o.cleanup_enabled && o.recognize_command && !o.auto_paste && !o.auto_paste_and_enter);
    assert_eq!(o.language, Some("en".to_string()));
}

#[test]
fn cleanup_failure_keeps_raw_transcript() {
    let mut run = WorkflowRun::new(options(true, true, false, false));
    run.on_capture_stopped(Ok("/tmp/r.wav".to_string()));
    run.on_transcribed(Ok("hello world".to_string()));
    match run.next_action() {
        Action::Cleanup { text } => assert_eq!(text, "hello world"),
        other => panic!("unexpected {:?}", other),
    }
    run.on_cleaned(Err("network down".to_string()));
    assert_eq!(run.warnings, vec![Warning::Cleanup("network down".to_string())]);
    assert!(run.error.is_none());
    match run.next_action() {
        Action::Persist { text, processed_text, .. } => {
            assert_eq!(text, "hello world");
            assert_eq!(processed_text, None);
        }
        other => panic!("unexpected {:?}", other),
    }
    run.on_persisted(Ok(7));
    match run.next_action() {
        Action::Copy { text } => assert_eq!(text, "hello world"),
        other => panic!("unexpected {:?}", other),
    }
    run.on_copied(Ok(()));
    assert!(matches!(run.next_action(), Action::RemoveTemp { .. }));
    run.on_temp_removed();
    run.on_completed();
    assert_eq!(run.outcome(), Some(Ok("hello world".to_string())));
}

#[test]
fn transcription_failure_aborts_but_removes_file() {
    let mut run = WorkflowRun::new(options(false, true, true, false));
    run.on_capture_stopped(Ok("/tmp/r.wav".to_string()));
    run.on_transcribed(Err("tool missing".to_string()));
    match run.next_action() {
        Action::RemoveTemp { audio_path } => assert_eq!(audio_path, "/tmp/r.wav"),
        other => panic!("unexpected {:?}", other),
    }
    run.on_temp_removed();
    assert!(matches!(run.next_action(), Action::Complete));
    run.on_completed();
    assert!(matches!(run.next_action(), Action::Nothing));
    assert_eq!(run.outcome(), Some(Err(WorkflowError::Transcription("tool missing".to_string()))));
}

#[test]
fn capture_failure_goes_straight_to_complete() {
    let mut run = WorkflowRun::new(options(false, true, false, false));
    run.on_transcribed(Ok("ignored".to_string()));
    assert!(matches!(run.stage, Stage::StopCapture));
    run.on_capture_stopped(Err("NotRecording".to_string()));
    assert!(matches!(run.next_action(), Action::Complete));
    run.on_completed();
    assert_eq!(run.outcome(), Some(Err(WorkflowError::Capture("NotRecording".to_string()))));
}

#[test]
fn persistence_and_paste_failures_are_warnings() {
    let mut run = WorkflowRun::new(options(true, true, true, false));
    run.on_capture_stopped(Ok("/tmp/r.wav".to_string()));
    run.on_transcribed(Ok("raw words".to_string()));
    run.on_cleaned(Ok("Clean words, and press enter.".to_string()));
    assert!(run.submit);
    match run.next_action() {
        Action::Persist { text, processed_text, language } => {
            assert_eq!(text, "raw words");
            assert_eq!(processed_text, Some("Clean words, and press enter.".to_string()));
            assert_eq!(language, Some("en".to_string()));
        }
        other => panic!("unexpected {:?}", other),
    }
    run.on_persisted(Err("disk full".to_string()));
    run.on_copied(Ok(()));
    match run.next_action() {
        Action::Paste { text, submit } => {
            assert_eq!(text, "Clean words,");
            assert!(submit);
        }
        other => panic!("unexpected {:?}", other),
    }
    run.on_pasted(Err("no permission".to_string()));
    assert_eq!(
        run.warnings,
        vec![Warning::Persistence("disk full".to_string()), Warning::Paste("no permission".to_string())]
    );
    run.on_temp_removed();
    run.on_completed();
    assert_eq!(run.outcome(), Some(Ok("Clean words,".to_string())));
}

#[test]
fn empty_transcript_skips_delivery() {
    let mut run = WorkflowRun::new(options(false, true, true, true));
    run.on_capture_stopped(Ok("/tmp/r.wav".to_string()));
    run.on_transcribed(Ok("".to_string()));
    run.on_persisted(Ok(1));
    assert!(matches!(run.next_action(), Action::RemoveTemp { .. }));
}

#[test]
fn end_to_end_press_record_release() {
    let mut session = RecordingSession::new();
    let mut engine = CaptureEngine::new();
    let device = Some(DeviceConfig { channels: 1, sample_rate: 16000, format: SampleKind::I16 });

    assert_eq!(apply_key(&mut session, FnKeyState::Pressed), Some(SessionCommand::StartCapture));
    assert_eq!(session.state(), RecordingState::Recording);
    engine.start("/tmp/e2e.wav".to_string(), device, true).unwrap();

    let mut written = 0usize;
    for _ in 0..10 {
        let block: Vec<i16> = (0..1600).map(|i| ((i % 200) as i16 - 100) * 50).collect();
        written += engine.accept_block(&SampleBlock::I16(block)).len();
    }
    assert_eq!(written, 16000);

    assert_eq!(apply_key(&mut session, FnKeyState::Released), Some(SessionCommand::StopCapture));
    assert_eq!(session.state(), RecordingState::Processing);

    let mut run = WorkflowRun::new(options(false, true, false, false));
    let mut persisted: Vec<(i64, String)> = Vec::new();
    let mut copies: Vec<String> = Vec::new();
    loop {
        match run.next_action() {
            Action::StopCapture => {
                let r = engine.stop().map(|c| c.path).map_err(|e| format!("{:?}", e));
                run.on_capture_stopped(r);
            }
            Action::Transcribe { audio_path, .. } => {
                assert_eq!(audio_path, "/tmp/e2e.wav");
                run.on_transcribed(Ok("test".to_string()));
            }
            Action::Cleanup { .. } => panic!("clean-up is disabled"),
            Action::Persist { text, .. } => {
                persisted.push((1, text));
                run.on_persisted(Ok(1));
            }
            Action::Copy { text } => {
                copies.push(text);
                run.on_copied(Ok(()));
            }
            Action::Paste { .. } => panic!("pasting is disabled"),
            Action::RemoveTemp { .. } => run.on_temp_removed(),
            Action::Complete => {
                session.complete();
                run.on_completed();
            }
            Action::Nothing => break,
        }
    }
    assert_eq!(persisted, vec![(1, "test".to_string())]);
    assert_eq!(run.record_id, Some(1));
    assert_eq!(copies, vec!["test".to_string()]);
    assert_eq!(session.state(), RecordingState::Idle);
    assert_eq!(run.outcome(), Some(Ok("test".to_string())));
}

#[test]
fn copy_failure_skips_paste_and_keeps_text() {
    let mut run = WorkflowRun::new(options(false, true, true, true));
    run.on_capture_stopped(Ok("/tmp/r.wav".to_string()));
    run.on_transcribed(Ok("note to self".to_string()));
    run.on_persisted(Ok(3));
    run.on_copied(Err("no display".to_string()));
    assert_eq!(run.warnings, vec![Warning::Copy("no display".to_string())]);
    assert!(matches!(run.next_action(), Action::RemoveTemp { .. }));
    run.on_temp_removed();
    run.on_completed();
    assert_eq!(run.outcome(), Some(Ok("note to self".to_string())));
}

#[test]
fn unfinished_run_has_no_outcome() {
    let run = WorkflowRun::new(options(false, true, false, false));
    assert_eq!(run.outcome(), None);
}

#[test]
fn no_break_space_before_command_is_dropped() {
    assert_eq!(
        detect_and_strip_enter_command("call mom\u{A0}and press enter"),
        ("call mom".to_string(), true)
    );
}
