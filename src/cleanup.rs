//! The request and response shapes of the text clean-up service.
use crate::settings::DEFAULT_SYSTEM_PROMPT;
use vstd::prelude::*;
use vstd::string::StringExecFns;

verus! {

/// Endpoint of the chat-completions service used for clean-up.
pub const CHAT_COMPLETIONS_URL: &'static str = "https://api.openai.com/v1/chat/completions";

/// Credentials and model for the clean-up service.
#[derive(Clone, Debug)]
pub struct AIConfig {
    pub api_key: String,
    pub model: String,
    pub system_prompt: Option<String>,
}

/// One message of a chat request.
#[derive(Clone, Debug)]
pub struct ChatMessage {
    pub role: String,
    pub content: String,
}

#[derive(Clone, Debug, PartialEq, Eq)]
pub enum CleanupError {
    /// The request could not be sent.
    Request(String),
    /// The service answered with an error status and this body.
    Api(String),
    /// The answer could not be read.
    MalformedResponse(String),
    /// The answer held no choice.
    NoResponse,
}

/// The configured instruction, or the default one.
pub open spec fn prompt_of(c: AIConfig) -> Seq<char> {
    match c.system_prompt {
        Some(p) => p@,
        None => DEFAULT_SYSTEM_PROMPT@,
    }
}

/// The system instruction followed by the text to clean up.
pub fn chat_messages(config: &AIConfig, text: &str) -> (r: Vec<ChatMessage>)
    ensures
        r@.len() == 2,
        r@[0].role@ == "system"@,
        r@[0].content@ == prompt_of(*config),
        r@[1].role@ == "user"@,
        r@[1].content@ == text@,
{
    let prompt = match &config.system_prompt {
        Some(p) => p.clone(),
        None => String::from_str(DEFAULT_SYSTEM_PROMPT),
    };
    let mut messages: Vec<ChatMessage> = Vec::new();
    messages.push(ChatMessage { role: String::from_str("system"), content: prompt });
    messages.push(ChatMessage { role: String::from_str("user"), content: String::from_str(text) });
    messages
}

/// The cleaned text: the first choice's content.
pub fn first_choice(choices: Vec<String>) -> (r: Result<String, CleanupError>)
    ensures
        choices@.len() == 0 ==> r == Err::<String, CleanupError>(CleanupError::NoResponse),
        choices@.len() > 0 ==> r == Ok::<String, CleanupError>(choices@[0]),
{
    let mut choices = choices;
    if choices.len() == 0 {
        Err(CleanupError::NoResponse)
    } else {
        Ok(choices.swap_remove(0))
    }
}

} // verus!
