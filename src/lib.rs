//! Push-to-talk dictation core: amplitude metering, capture-session
//! bookkeeping, input-event arbitration, and the transcription workflow.

pub mod meter;
pub mod pcm;
pub mod capture;
pub mod session;
pub mod text;
pub mod input;
pub mod voice;
pub mod settings;
pub mod workflow;
pub mod whisper;
pub mod cleanup;
pub mod history;
pub mod clipboard;
