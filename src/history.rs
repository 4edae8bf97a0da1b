//! Records of past transcriptions as the history store returns them.
use vstd::prelude::*;

verus! {

/// One stored transcription.
#[derive(Clone, Debug)]
pub struct Transcription {
    pub id: i64,
    pub text: String,
    pub processed_text: Option<String>,
    pub language: Option<String>,
    pub duration_ms: Option<i64>,
    pub created_at: String,
}

/// How many records the recent-history view asks for.
pub const RECENT_LIMIT: usize = 50;

/// The text to show for a record: the processed text when there is one.
pub fn display_text(t: &Transcription) -> (r: &String)
    ensures
        *r == match t.processed_text {
            Some(p) => p,
            None => t.text,
        },
{
    match &t.processed_text {
        Some(p) => p,
        None => &t.text,
    }
}

} // verus!
