//! The post-recording pipeline as a state machine: the caller performs each
//! action (stop capture, transcribe, clean up, persist, copy, paste, remove
//! the temporary file, complete the session) and reports its result back.
//! Later failures never discard what earlier stages produced.
use crate::settings::AppSettings;
use crate::voice::{detect_and_strip_enter_command, strip_command};
use vstd::prelude::*;

verus! {

/// What the pipeline reads from the settings.
#[derive(Clone, Debug)]
pub struct WorkflowOptions {
    pub cleanup_enabled: bool,
    pub recognize_command: bool,
    pub auto_paste: bool,
    pub auto_paste_and_enter: bool,
    pub language: Option<String>,
}

pub fn options_from_settings(s: &AppSettings) -> (r: WorkflowOptions)
    ensures
        r.cleanup_enabled == s.ai_processing_enabled,
        r.recognize_command == s.recognize_press_enter,
        r.auto_paste == s.auto_paste,
        r.auto_paste_and_enter == s.auto_paste_and_enter,
        r.language == s.language,
{
    WorkflowOptions {
        cleanup_enabled: s.ai_processing_enabled,
        recognize_command: s.recognize_press_enter,
        auto_paste: s.auto_paste,
        auto_paste_and_enter: s.auto_paste_and_enter,
        language: s.language.clone(),
    }
}

/// How delivered text is pasted after the clipboard copy.
#[derive(Clone, Copy, Debug, PartialEq, Eq, Structural)]
pub enum PasteMode {
    NoPaste,
    Paste,
    PasteAndSubmit,
}

/// Paste and submit when configured to, or when the text carried a submit
/// command and pasting is on; plain paste when pasting is on.
pub open spec fn paste_mode_spec(o: WorkflowOptions, submit: bool) -> PasteMode {
    if o.auto_paste_and_enter || (submit && o.auto_paste) {
        PasteMode::PasteAndSubmit
    } else if o.auto_paste {
        PasteMode::Paste
    } else {
        PasteMode::NoPaste
    }
}

pub fn paste_mode(o: &WorkflowOptions, submit: bool) -> (r: PasteMode)
    ensures
        r == paste_mode_spec(*o, submit),
{
    if o.auto_paste_and_enter || (submit && o.auto_paste) {
        PasteMode::PasteAndSubmit
    } else if o.auto_paste {
        PasteMode::Paste
    } else {
        PasteMode::NoPaste
    }
}

/// The text to deliver and the submit flag: a trailing voice command is
/// stripped when recognition is on.
pub open spec fn command_spec(o: WorkflowOptions, text: Seq<char>) -> (Seq<char>, bool) {
    if o.recognize_command {
        strip_command(text)
    } else {
        (text, false)
    }
}

pub fn apply_voice_command(o: &WorkflowOptions, text: &String) -> (r: (String, bool))
    ensures
        (r.0@, r.1) == command_spec(*o, text@),
{
    if o.recognize_command {
        detect_and_strip_enter_command(text.as_str())
    } else {
        (text.clone(), false)
    }
}

/// Where the run stands, with what the next action needs.
#[derive(Clone, Debug)]
pub enum Stage {
    StopCapture,
    Transcribe { audio_path: String },
    Cleanup { audio_path: String, raw: String },
    Persist {
        audio_path: String,
        raw: String,
        processed: Option<String>,
        text: String,
        submit: bool,
    },
    Copy { audio_path: String, text: String, submit: bool },
    Paste { audio_path: String, text: String, mode: PasteMode },
    RemoveTemp { audio_path: String },
    Complete,
    Finished,
}

/// What the caller is to do next.
#[derive(Clone, Debug)]
pub enum Action {
    StopCapture,
    Transcribe { audio_path: String, language: Option<String> },
    Cleanup { text: String },
    Persist { text: String, processed_text: Option<String>, language: Option<String> },
    Copy { text: String },
    Paste { text: String, submit: bool },
    RemoveTemp { audio_path: String },
    Complete,
    Nothing,
}

/// Failures that abort the run.
#[derive(Clone, Debug, PartialEq, Eq)]
pub enum WorkflowError {
    Capture(String),
    Transcription(String),
}

/// Failures that degrade the run but do not abort it.
#[derive(Clone, Debug, PartialEq, Eq)]
pub enum Warning {
    Cleanup(String),
    Persistence(String),
    Copy(String),
    Paste(String),
}

/// One pass of the pipeline.
#[derive(Clone, Debug)]
pub struct WorkflowRun {
    pub options: WorkflowOptions,
    pub stage: Stage,
    /// The transcript as the transcription service returned it.
    pub raw_text: Option<String>,
    /// The text handed to delivery, once known.
    pub final_text: Option<String>,
    pub submit: bool,
    pub record_id: Option<i64>,
    pub error: Option<WorkflowError>,
    pub warnings: Vec<Warning>,
}

/// Nothing but the stage changed.
pub open spec fn only_stage_changed(a: WorkflowRun, b: WorkflowRun) -> bool {
    &&& b.options == a.options
    &&& b.raw_text == a.raw_text
    &&& b.final_text == a.final_text
    &&& b.submit == a.submit
    &&& b.record_id == a.record_id
    &&& b.error == a.error
    &&& b.warnings@ == a.warnings@
}

/// Only the stage and the error changed.
pub open spec fn aborted(a: WorkflowRun, b: WorkflowRun, e: WorkflowError) -> bool {
    &&& b.error == Some(e)
    &&& b.options == a.options
    &&& b.raw_text == a.raw_text
    &&& b.final_text == a.final_text
    &&& b.submit == a.submit
    &&& b.record_id == a.record_id
    &&& b.warnings@ == a.warnings@
}

/// Only the stage changed, and one warning was recorded.
pub open spec fn warned(a: WorkflowRun, b: WorkflowRun, w: Warning) -> bool {
    &&& b.options == a.options
    &&& b.raw_text == a.raw_text
    &&& b.final_text == a.final_text
    &&& b.submit == a.submit
    &&& b.record_id == a.record_id
    &&& b.error == a.error
    &&& b.warnings@ == a.warnings@.push(w)
}

/// The stage after delivery of `text` is settled: copy when there is text,
/// else go straight to removing the temporary file.
pub open spec fn delivery_stage(audio_path: String, text: String, submit: bool) -> Stage {
    if text@.len() > 0 {
        Stage::Copy { audio_path, text, submit }
    } else {
        Stage::RemoveTemp { audio_path }
    }
}

/// Position of a stage in the pipeline. Every accepted result moves a run
/// strictly forward, so each run reaches `Complete`, which returns the
/// session to Idle, and then `Finished`, whatever failed on the way.
pub open spec fn rank(s: Stage) -> nat {
    match s {
        Stage::StopCapture => 0,
        Stage::Transcribe { .. } => 1,
        Stage::Cleanup { .. } => 2,
        Stage::Persist { .. } => 3,
        Stage::Copy { .. } => 4,
        Stage::Paste { .. } => 5,
        Stage::RemoveTemp { .. } => 6,
        Stage::Complete => 7,
        Stage::Finished => 8,
    }
}

impl WorkflowRun {
    /// A fresh run, starting with stopping the capture.
    pub fn new(options: WorkflowOptions) -> (r: WorkflowRun)
        ensures
            r.options == options,
            r.stage is StopCapture,
            r.raw_text is None,
            r.final_text is None,
            !r.submit,
            r.record_id is None,
            r.error is None,
            r.warnings@.len() == 0,
    {
        WorkflowRun {
            options,
            stage: Stage::StopCapture,
            raw_text: None,
            final_text: None,
            submit: false,
            record_id: None,
            error: None,
            warnings: Vec::new(),
        }
    }

    /// The action the current stage asks for.
    pub fn next_action(&self) -> (r: Action)
        ensures
            self.stage is StopCapture ==> r is StopCapture,
            self.stage matches Stage::Transcribe { audio_path } ==> r matches Action::Transcribe {
                audio_path: p,
                language,
            } && p@ == audio_path@ && language == self.options.language,
            self.stage matches Stage::Cleanup { raw, .. } ==> r matches Action::Cleanup { text }
                && text@ == raw@,
            self.stage matches Stage::Persist { raw, processed, .. } ==> r matches Action::Persist {
                text,
                processed_text,
                language,
            } && text@ == raw@ && processed_text == processed && language == self.options.language,
            self.stage matches Stage::Copy { text, .. } ==> r matches Action::Copy { text: t }
                && t@ == text@,
            self.stage matches Stage::Paste { text, mode, .. } ==> r matches Action::Paste {
                text: t,
                submit,
            } && t@ == text@ && submit == (mode == PasteMode::PasteAndSubmit),
            self.stage matches Stage::RemoveTemp { audio_path } ==> r matches Action::RemoveTemp {
                audio_path: p,
            } && p@ == audio_path@,
            self.stage is Complete ==> r is Complete,
            self.stage is Finished ==> r is Nothing,
    {
        match &self.stage {
            Stage::StopCapture => Action::StopCapture,
            Stage::Transcribe { audio_path } => Action::Transcribe {
                audio_path: audio_path.clone(),
                language: self.options.language.clone(),
            },
            Stage::Cleanup { raw, .. } => Action::Cleanup { text: raw.clone() },
            Stage::Persist { raw, processed, .. } => Action::Persist {
                text: raw.clone(),
                processed_text: processed.clone(),
                language: self.options.language.clone(),
            },
            Stage::Copy { text, .. } => Action::Copy { text: text.clone() },
            Stage::Paste { text, mode, .. } => Action::Paste {
                text: text.clone(),
                submit: *mode == PasteMode::PasteAndSubmit,
            },
            Stage::RemoveTemp { audio_path } => Action::RemoveTemp { audio_path: audio_path.clone() },
            Stage::Complete => Action::Complete,
            Stage::Finished => Action::Nothing,
        }
    }
    /// The capture stopped. With its audio file, transcription follows; a
    /// failure aborts the run, which then only completes the session (no file
    /// was produced).
    pub fn on_capture_stopped(&mut self, result: Result<String, String>)
        ensures
            old(self).stage is StopCapture ==> rank(final(self).stage) > rank(old(self).stage),
            !(old(self).stage is StopCapture) ==> *final(self) == *old(self),
            old(self).stage is StopCapture ==> match result {
                Ok(p) => final(self).stage == (Stage::Transcribe { audio_path: p })
                    && only_stage_changed(*old(self), *final(self)),
                Err(e) => final(self).stage is Complete && aborted(
                    *old(self),
                    *final(self),
                    WorkflowError::Capture(e),
                ),
            },
    {
        if !matches!(self.stage, Stage::StopCapture) {
            return;
        }
        match result {
            Ok(p) => {
                self.stage = Stage::Transcribe { audio_path: p };
            },
            Err(e) => {
                self.error = Some(WorkflowError::Capture(e));
                self.stage = Stage::Complete;
            },
        }
    }

    /// The transcript arrived. With clean-up enabled it goes to the clean-up
    /// service; otherwise its voice command is handled and it is persisted.
    /// A failure aborts the run, but the audio file is still removed.
    pub fn on_transcribed(&mut self, result: Result<String, String>)
        ensures
            old(self).stage is Transcribe ==> rank(final(self).stage) > rank(old(self).stage),
            !(old(self).stage is Transcribe) ==> *final(self) == *old(self),
            old(self).stage matches Stage::Transcribe { audio_path } ==> match result {
                Ok(raw) => final(self).raw_text == Some(raw) && final(self).options == old(
                    self,
                ).options && final(self).record_id == old(self).record_id && final(self).error
                    == old(self).error && final(self).warnings@ == old(self).warnings@ && if old(
                    self,
                ).options.cleanup_enabled {
                    final(self).stage == (Stage::Cleanup { audio_path, raw })
                        && final(self).final_text == old(self).final_text && final(self).submit
                        == old(self).submit
                } else {
                    final(self).stage matches Stage::Persist {
                        audio_path: a,
                        raw: r,
                        processed,
                        text,
                        submit,
                    } && a == audio_path && r == raw && processed is None && (text@, submit)
                        == command_spec(old(self).options, raw@) && final(self).final_text
                        == Some(text) && final(self).submit == submit
                },
                Err(e) => final(self).stage == (Stage::RemoveTemp { audio_path }) && aborted(
                    *old(self),
                    *final(self),
                    WorkflowError::Transcription(e),
                ),
            },
    {
        if !matches!(self.stage, Stage::Transcribe { .. }) {
            return;
        }
        let mut taken = Stage::Finished;
        core::mem::swap(&mut self.stage, &mut taken);
        let audio_path = match taken {
            Stage::Transcribe { audio_path } => audio_path,
            _ => String::new(),
        };
        match result {
            Ok(raw) => {
                self.raw_text = Some(raw.clone());
                if self.options.cleanup_enabled {
                    self.stage = Stage::Cleanup { audio_path, raw };
                } else {
                    let (text, submit) = apply_voice_command(&self.options, &raw);
                    self.final_text = Some(text.clone());
                    self.submit = submit;
                    self.stage = Stage::Persist { audio_path, raw, processed: None, text, submit };
                }
            },
            Err(e) => {
                self.error = Some(WorkflowError::Transcription(e));
                self.stage = Stage::RemoveTemp { audio_path };
            },
        }
    }

    /// The clean-up service answered. Its text, or on failure the raw
    /// transcript (with a warning, not an abort), has its voice command
    /// handled and is persisted.
    pub fn on_cleaned(&mut self, result: Result<String, String>)
        ensures
            old(self).stage is Cleanup ==> rank(final(self).stage) > rank(old(self).stage),
            !(old(self).stage is Cleanup) ==> *final(self) == *old(self),
            old(self).stage matches Stage::Cleanup { audio_path, raw } ==> {
                &&& final(self).stage matches Stage::Persist {
                    audio_path: a,
                    raw: r,
                    processed,
                    text,
                    submit,
                } && a == audio_path && r == raw && processed == result.ok() && (text@, submit)
                    == command_spec(
                    old(self).options,
                    match result {
                        Ok(t) => t@,
                        Err(_) => raw@,
                    },
                ) && final(self).final_text == Some(text) && final(self).submit == submit
                &&& final(self).options == old(self).options
                &&& final(self).raw_text == old(self).raw_text
                &&& final(self).record_id == old(self).record_id
                &&& final(self).error == old(self).error
                &&& final(self).warnings@ == match result {
                    Ok(_) => old(self).warnings@,
                    Err(e) => old(self).warnings@.push(Warning::Cleanup(e)),
                }
            },
    {
        if !matches!(self.stage, Stage::Cleanup { .. }) {
            return;
        }
        let mut taken = Stage::Finished;
        core::mem::swap(&mut self.stage, &mut taken);
        let (audio_path, raw) = match taken {
            Stage::Cleanup { audio_path, raw } => (audio_path, raw),
            _ => (String::new(), String::new()),
        };
        let (processed, basis) = match result {
            Ok(t) => (Some(t.clone()), t),
            Err(e) => {
                self.warnings.push(Warning::Cleanup(e));
                (None, raw.clone())
            },
        };
        let (text, submit) = apply_voice_command(&self.options, &basis);
        self.final_text = Some(text.clone());
        self.submit = submit;
        self.stage = Stage::Persist { audio_path, raw, processed, text, submit };
    }

    /// The history store answered. A failure is a warning; delivery follows
    /// either way.
    pub fn on_persisted(&mut self, result: Result<i64, String>)
        ensures
            old(self).stage is Persist ==> rank(final(self).stage) > rank(old(self).stage),
            !(old(self).stage is Persist) ==> *final(self) == *old(self),
            old(self).stage matches Stage::Persist { audio_path, text, submit, .. } ==> {
                &&& final(self).stage == delivery_stage(audio_path, text, submit)
                &&& match result {
                    Ok(id) => final(self).record_id == Some(id) && final(self).warnings@ == old(
                        self,
                    ).warnings@,
                    Err(e) => final(self).record_id == old(self).record_id && final(self).warnings@
                        == old(self).warnings@.push(Warning::Persistence(e)),
                }
                &&& final(self).options == old(self).options
                &&& final(self).raw_text == old(self).raw_text
                &&& final(self).final_text == old(self).final_text
                &&& final(self).submit == old(self).submit
                &&& final(self).error == old(self).error
            },
    {
        if !matches!(self.stage, Stage::Persist { .. }) {
            return;
        }
        let mut taken = Stage::Finished;
        core::mem::swap(&mut self.stage, &mut taken);
        let (audio_path, text, submit) = match taken {
            Stage::Persist { audio_path, text, submit, .. } => (audio_path, text, submit),
            _ => (String::new(), String::new(), false),
        };
        match result {
            Ok(id) => {
                self.record_id = Some(id);
            },
            Err(e) => {
                self.warnings.push(Warning::Persistence(e));
            },
        }
        if text.as_str().unicode_len() > 0 {
            self.stage = Stage::Copy { audio_path, text, submit };
        } else {
            self.stage = Stage::RemoveTemp { audio_path };
        }
    }

    /// The clipboard copy finished. On success the configured paste follows;
    /// a failure is a warning and skips pasting.
    pub fn on_copied(&mut self, result: Result<(), String>)
        ensures
            old(self).stage is Copy ==> rank(final(self).stage) > rank(old(self).stage),
            !(old(self).stage is Copy) ==> *final(self) == *old(self),
            old(self).stage matches Stage::Copy { audio_path, text, submit } ==> match result {
                Ok(()) => only_stage_changed(*old(self), *final(self)) && final(self).stage == if paste_mode_spec(old(self).options, submit) == PasteMode::NoPaste {
                    Stage::RemoveTemp { audio_path }
                } else {
                    Stage::Paste { audio_path, text, mode: paste_mode_spec(old(self).options, submit) }
                },
                Err(e) => final(self).stage == (Stage::RemoveTemp { audio_path }) && warned(
                    *old(self),
                    *final(self),
                    Warning::Copy(e),
                ),
            },
    {
        if !matches!(self.stage, Stage::Copy { .. }) {
            return;
        }
        let mut taken = Stage::Finished;
        core::mem::swap(&mut self.stage, &mut taken);
        let (audio_path, text, submit) = match taken {
            Stage::Copy { audio_path, text, submit } => (audio_path, text, submit),
            _ => (String::new(), String::new(), false),
        };
        match result {
            Ok(()) => {
                let mode = paste_mode(&self.options, submit);
                if mode == PasteMode::NoPaste {
                    self.stage = Stage::RemoveTemp { audio_path };
                } else {
                    self.stage = Stage::Paste { audio_path, text, mode };
                }
            },
            Err(e) => {
                self.warnings.push(Warning::Copy(e));
                self.stage = Stage::RemoveTemp { audio_path };
            },
        }
    }

    /// The paste finished; a failure is a warning (the copy stands).
    pub fn on_pasted(&mut self, result: Result<(), String>)
        ensures
            old(self).stage is Paste ==> rank(final(self).stage) > rank(old(self).stage),
            !(old(self).stage is Paste) ==> *final(self) == *old(self),
            old(self).stage matches Stage::Paste { audio_path, .. } ==> final(self).stage == (
            Stage::RemoveTemp { audio_path }) && match result {
                Ok(()) => only_stage_changed(*old(self), *final(self)),
                Err(e) => warned(*old(self), *final(self), Warning::Paste(e)),
            },
    {
        if !matches!(self.stage, Stage::Paste { .. }) {
            return;
        }
        let mut taken = Stage::Finished;
        core::mem::swap(&mut self.stage, &mut taken);
        let audio_path = match taken {
            Stage::Paste { audio_path, .. } => audio_path,
            _ => String::new(),
        };
        if let Err(e) = result {
            self.warnings.push(Warning::Paste(e));
        }
        self.stage = Stage::RemoveTemp { audio_path };
    }

    /// The temporary audio file was removed (or its removal was attempted).
    pub fn on_temp_removed(&mut self)
        ensures
            old(self).stage is RemoveTemp ==> rank(final(self).stage) > rank(old(self).stage),
            !(old(self).stage is RemoveTemp) ==> *final(self) == *old(self),
            old(self).stage is RemoveTemp ==> final(self).stage is Complete && only_stage_changed(
                *old(self),
                *final(self),
            ),
    {
        if matches!(self.stage, Stage::RemoveTemp { .. }) {
            self.stage = Stage::Complete;
        }
    }

    /// The recording session was returned to Idle; the run is over.
    pub fn on_completed(&mut self)
        ensures
            old(self).stage is Complete ==> rank(final(self).stage) > rank(old(self).stage),
            !(old(self).stage is Complete) ==> *final(self) == *old(self),
            old(self).stage is Complete ==> final(self).stage is Finished && only_stage_changed(
                *old(self),
                *final(self),
            ),
    {
        if matches!(self.stage, Stage::Complete) {
            self.stage = Stage::Finished;
        }
    }

    /// Once finished: the delivered text, or the error that aborted the run.
    pub fn outcome(self) -> (r: Option<Result<String, WorkflowError>>)
        ensures
            !(self.stage is Finished) ==> r is None,
            self.stage is Finished ==> match self.error {
                Some(e) => r == Some(Err::<String, WorkflowError>(e)),
                None => r matches Some(Ok(t)) && t@ == match self.final_text {
                    Some(f) => f@,
                    None => Seq::<char>::empty(),
                },
            },
    {
        if !matches!(self.stage, Stage::Finished) {
            return None;
        }
        match self.error {
            Some(e) => Some(Err(e)),
            None => match self.final_text {
                Some(t) => Some(Ok(t)),
                None => Some(Ok(String::new())),
            },
        }
    }
}

} // verus!
