use convey::cleanup::{chat_messages, first_choice, AIConfig, CleanupError};
use convey::clipboard::{ClipboardManager, ClipboardService, PASTE_AND_ENTER_SCRIPT, PASTE_SCRIPT};
use convey::history::{display_text, Transcription};
use convey::settings::{
    interpret_deletion, interpret_lookup, interpret_presence, AppSettings, SecretError,
    SecureStorage, SettingsService, StorageError, DEFAULT_SYSTEM_PROMPT,
};
use convey::text::trim_spaces;
use convey::whisper::{
    expand_home, resolve_whisper_cli, transcript_from_output, whisper_config_from, CliProbe, CliResolveError,
    WhisperClient, WhisperConfig,
};

#[test]
fn default_settings() {
    let s = AppSettings::default();
    assert_eq!(s.whisper_model, "whisper-1");
    assert_eq!(s.ai_model, "gpt-4o-mini");
    assert_eq!(s.language, Some("en".to_string()));
    assert!(!s.auto_paste && !s.auto_paste_and_enter && !s.ai_processing_enabled);
    assert_eq!(s.system_prompt, Some(DEFAULT_SYSTEM_PROMPT.to_string()));
    assert_eq!(s.hotkey, "Fn");
    assert_eq!(s.whisper_cli_path, None);
    assert!(s.recognize_press_enter);
}

#[test]
fn load_uses_stored_or_defaults() {
    let svc = SettingsService::new(SecureStorage::new("/tmp/settings.json".to_string()));
    assert_eq!(svc.settings_path(), "/tmp/settings.json");
    let (s, write_back) = svc.load(None);
    assert!(write_back);
    assert_eq!(s.hotkey, "Fn");
    let mut stored = AppSettings::default();
    stored.hotkey = "Ctrl+Space".to_string();
    let (s, write_back) = svc.load(Some(stored));
    assert!(!write_back);
    assert_eq!(s.hotkey, "Ctrl+Space");
}

#[test]
fn secret_store_answers() {
    assert_eq!(interpret_lookup(Ok("k".to_string())), Ok("k".to_string()));
    assert_eq!(interpret_lookup(Err(SecretError::Missing)), Err(StorageError::KeyNotFound));
    assert_eq!(interpret_presence(Ok("".to_string())), Ok(false));
    assert_eq!(interpret_presence(Ok("k".to_string())), Ok(true));
    assert_eq!(interpret_presence(Err(SecretError::Missing)), Ok(false));
    assert_eq!(
        interpret_presence(Err(SecretError::Platform("locked".to_string()))),
        Err(StorageError::StoreFailed("locked".to_string()))
    );
    assert_eq!(interpret_deletion(Err(SecretError::Missing)), Ok(()));
    assert_eq!(
        interpret_deletion(Err(SecretError::Platform("x".to_string()))),
        Err(StorageError::StoreFailed("x".to_string()))
    );
}

#[test]
fn trimming() {
    assert_eq!(trim_spaces("  a b \t\n"), "a b");
    assert_eq!(trim_spaces("   "), "");
    assert_eq!(trim_spaces(""), "");
}

#[test]
fn whisper_config_normalises_tool_path() {
    let mut s = AppSettings::default();
    s.whisper_cli_path = Some("  /opt/bin/whisper-cli ".to_string());
    assert_eq!(whisper_config_from(&s).cli_path, Some("/opt/bin/whisper-cli".to_string()));
    s.whisper_cli_path = Some("   ".to_string());
    assert_eq!(whisper_config_from(&s).cli_path, None);
}

#[test]
fn whisper_command_line() {
    let c = WhisperClient::new(WhisperConfig { model: "base".to_string(), language: Some("de".to_string()), cli_path: None });
    assert_eq!(c.settings().model, "base");
    assert_eq!(c.command_args("m.bin", "a.wav"), vec!["-m", "m.bin", "-f", "a.wav", "-l", "de", "-otxt"]);
    let c = WhisperClient::new(WhisperConfig { model: "base".to_string(), language: None, cli_path: None });
    assert_eq!(c.command_args("m.bin", "a.wav"), vec!["-m", "m.bin", "-f", "a.wav", "-otxt"]);
}

#[test]
fn home_expansion() {
    let home = Some("/home/u".to_string());
    assert_eq!(expand_home("~/bin/w", home.clone()), "/home/u/bin/w");
    assert_eq!(expand_home("~", home.clone()), "/home/u");
    assert_eq!(expand_home("/usr/bin/w", home.clone()), "/usr/bin/w");
    assert_eq!(expand_home("~/bin", Some("/root/".to_string())), "/root/bin");
    assert_eq!(expand_home("~/bin", None), "~/bin");
}

fn probe(override_exists: bool, on_path: Option<&str>, default: Option<&str>, fallbacks: Vec<bool>) -> CliProbe {
    CliProbe {
        override_exists,
        override_on_path: on_path.map(|s| s.to_string()),
        default_on_path: default.map(|s| s.to_string()),
        fallback_exists: fallbacks,
    }
}

#[test]
fn tool_resolution_order() {
    let home = Some("/home/u".to_string());
    assert_eq!(resolve_whisper_cli(Some(" ~/w "), home.clone(), &probe(true, None, None, vec![])), Ok("/home/u/w".to_string()));
    assert_eq!(resolve_whisper_cli(Some("wcli"), home.clone(), &probe(false, Some("/usr/bin/wcli"), None, vec![])), Ok("/usr/bin/wcli".to_string()));
    assert_eq!(
        resolve_whisper_cli(Some("~/w"), home.clone(), &probe(false, Some("/x"), None, vec![])),
        Err(CliResolveError::ConfiguredNotFound("/home/u/w".to_string()))
    );
    assert_eq!(resolve_whisper_cli(None, home.clone(), &probe(false, None, Some("/p/whisper-cli"), vec![true])), Ok("/p/whisper-cli".to_string()));
    assert_eq!(resolve_whisper_cli(None, home.clone(), &probe(false, None, None, vec![false, true, true])), Ok("/usr/local/bin/whisper-cli".to_string()));
    assert_eq!(resolve_whisper_cli(None, home, &probe(false, None, None, vec![false, false, false])), Err(CliResolveError::NotInstalled));
}

#[test]
fn cleanup_request_and_answer() {
    let c = AIConfig { api_key: "k".to_string(), model: "m".to_string(), system_prompt: None };
    let msgs = chat_messages(&c, "hi");
    assert_eq!(msgs.len(), 2);
    assert_eq!((msgs[0].role.as_str(), msgs[0].content.as_str()), ("system", DEFAULT_SYSTEM_PROMPT));
    assert_eq!((msgs[1].role.as_str(), msgs[1].content.as_str()), ("user", "hi"));
    let c = AIConfig { api_key: "k".to_string(), model: "m".to_string(), system_prompt: Some("be brief".to_string()) };
    assert_eq!(chat_messages(&c, "hi")[0].content, "be brief");
    assert_eq!(first_choice(vec![]), Err(CleanupError::NoResponse));
    assert_eq!(first_choice(vec!["a".to_string(), "b".to_string()]), Ok("a".to_string()));
}

#[test]
fn history_display_prefers_processed() {
    let mut t = Transcription { id: 1, text: "raw".to_string(), processed_text: None, language: None, duration_ms: None, created_at: "2024-01-01T00:00:00Z".to_string() };
    assert_eq!(display_text(&t), "raw");
    t.processed_text = Some("clean".to_string());
    assert_eq!(display_text(&t), "clean");
}

#[test]
fn paste_scripts() {
    let svc = ClipboardService::new(ClipboardManager::new());
    assert_eq!(svc.manager().paste_script(false), PASTE_SCRIPT);
    assert_eq!(svc.manager().paste_script(true), PASTE_AND_ENTER_SCRIPT);
    assert!(PASTE_AND_ENTER_SCRIPT.contains("key code 36"));
}

#[test]
fn transcript_selection() {
    assert_eq!(transcript_from_output(false, Some("x".to_string()), "y"), None);
    assert_eq!(transcript_from_output(true, Some("  from file \n".to_string()), "out"), Some("from file".to_string()));
    assert_eq!(transcript_from_output(true, None, " out\n"), Some("out".to_string()));
}

#[test]
fn unicode_whitespace_is_trimmed() {
    assert_eq!(trim_spaces("\u{A0}a\u{3000}"), "a");
}
