//! User settings, and API keys kept in the platform's secret store.
use vstd::prelude::*;
use vstd::string::StringExecFns;

verus! {

/// Service name under which API keys are kept in the secret store.
pub const SERVICE_NAME: &'static str = "convey";

/// Default instruction for the text clean-up service.
pub const DEFAULT_SYSTEM_PROMPT: &'static str =
    "You are a helpful assistant that cleans up and improves transcribed text. Fix grammar, punctuation, and formatting while preserving the original meaning.";

/// The recognised configuration options.
#[derive(Clone, Debug)]
pub struct AppSettings {
    pub whisper_model: String,
    pub ai_model: String,
    pub language: Option<String>,
    pub auto_paste: bool,
    pub auto_paste_and_enter: bool,
    pub ai_processing_enabled: bool,
    pub system_prompt: Option<String>,
    pub hotkey: String,
    pub whisper_cli_path: Option<String>,
    pub recognize_press_enter: bool,
}

/// The defaults: English, no clean-up, no automatic paste, the Fn key as
/// trigger, and voice commands recognised.
pub open spec fn is_default(s: AppSettings) -> bool {
    &&& s.whisper_model@ == "whisper-1"@
    &&& s.ai_model@ == "gpt-4o-mini"@
    &&& s.language matches Some(l) && l@ == "en"@
    &&& !s.auto_paste
    &&& !s.auto_paste_and_enter
    &&& !s.ai_processing_enabled
    &&& s.system_prompt matches Some(p) && p@ == DEFAULT_SYSTEM_PROMPT@
    &&& s.hotkey@ == "Fn"@
    &&& s.whisper_cli_path is None
    &&& s.recognize_press_enter
}

impl Default for AppSettings {
    fn default() -> (r: AppSettings)
        ensures
            is_default(r),
    {
        AppSettings {
            whisper_model: String::from_str("whisper-1"),
            ai_model: String::from_str("gpt-4o-mini"),
            language: Some(String::from_str("en")),
            auto_paste: false,
            auto_paste_and_enter: false,
            ai_processing_enabled: false,
            system_prompt: Some(String::from_str(DEFAULT_SYSTEM_PROMPT)),
            hotkey: String::from_str("Fn"),
            whisper_cli_path: None,
            recognize_press_enter: true,
        }
    }
}

/// A failure reported by the secret store.
#[derive(Clone, Debug, PartialEq, Eq)]
pub enum SecretError {
    /// No secret is stored under the name.
    Missing,
    /// The platform store failed, with its description.
    Platform(String),
}

/// Errors of the settings and key operations.
#[derive(Clone, Debug, PartialEq, Eq)]
pub enum StorageError {
    /// The store could not open an entry for the key name.
    EntryUnavailable(String),
    /// No API key is stored under the name.
    KeyNotFound,
    /// The store failed to write, read or delete the key.
    StoreFailed(String),
}

/// Outcome of reading a key, from what the store answered.
pub open spec fn lookup_spec(answer: Result<String, SecretError>) -> Result<String, StorageError> {
    match answer {
        Ok(k) => Ok(k),
        Err(SecretError::Missing) => Err(StorageError::KeyNotFound),
        Err(SecretError::Platform(m)) => Err(StorageError::StoreFailed(m)),
    }
}

/// Outcome of asking whether a key exists: an empty key counts as absent.
pub open spec fn presence_spec(answer: Result<String, SecretError>) -> Result<bool, StorageError> {
    match answer {
        Ok(k) => Ok(k@.len() > 0),
        Err(SecretError::Missing) => Ok(false),
        Err(SecretError::Platform(m)) => Err(StorageError::StoreFailed(m)),
    }
}

/// Outcome of deleting a key: deleting a missing key succeeds.
pub open spec fn deletion_spec(answer: Result<(), SecretError>) -> Result<(), StorageError> {
    match answer {
        Ok(()) => Ok(()),
        Err(SecretError::Missing) => Ok(()),
        Err(SecretError::Platform(m)) => Err(StorageError::StoreFailed(m)),
    }
}

pub fn interpret_lookup(answer: Result<String, SecretError>) -> (r: Result<String, StorageError>)
    ensures
        r == lookup_spec(answer),
{
    match answer {
        Ok(k) => Ok(k),
        Err(SecretError::Missing) => Err(StorageError::KeyNotFound),
        Err(SecretError::Platform(m)) => Err(StorageError::StoreFailed(m)),
    }
}

pub fn interpret_presence(answer: Result<String, SecretError>) -> (r: Result<bool, StorageError>)
    ensures
        r == presence_spec(answer),
{
    match answer {
        Ok(k) => Ok(k.as_str().unicode_len() > 0),
        Err(SecretError::Missing) => Ok(false),
        Err(SecretError::Platform(m)) => Err(StorageError::StoreFailed(m)),
    }
}

pub fn interpret_deletion(answer: Result<(), SecretError>) -> (r: Result<(), StorageError>)
    ensures
        r == deletion_spec(answer),
{
    match answer {
        Ok(()) => Ok(()),
        Err(SecretError::Missing) => Ok(()),
        Err(SecretError::Platform(m)) => Err(StorageError::StoreFailed(m)),
    }
}

/// An entry of the platform secret store, carried opaquely.
#[verifier::external_type_specification]
#[verifier::external_body]
pub struct ExEntry(keyring::Entry);

/// Relies on keyring's `Entry::new`: opens the entry for a service and user.
#[verifier::external_body]
fn open_entry(service: &str, user: &str) -> (r: Result<keyring::Entry, SecretError>) {
    match keyring::Entry::new(service, user) {
        Ok(e) => Ok(e),
        Err(keyring::Error::NoEntry) => Err(SecretError::Missing),
        Err(e) => Err(SecretError::Platform(e.to_string())),
    }
}

/// Relies on keyring's `Entry::set_password`: saves the secret.
#[verifier::external_body]
fn write_secret(entry: &keyring::Entry, secret: &str) -> (r: Result<(), SecretError>) {
    match entry.set_password(secret) {
        Ok(()) => Ok(()),
        Err(keyring::Error::NoEntry) => Err(SecretError::Missing),
        Err(e) => Err(SecretError::Platform(e.to_string())),
    }
}

/// Relies on keyring's `Entry::get_password`: the saved secret, or `NoEntry`.
#[verifier::external_body]
fn read_secret(entry: &keyring::Entry) -> (r: Result<String, SecretError>) {
    match entry.get_password() {
        Ok(p) => Ok(p),
        Err(keyring::Error::NoEntry) => Err(SecretError::Missing),
        Err(e) => Err(SecretError::Platform(e.to_string())),
    }
}

/// Relies on keyring's `Entry::delete_credential`: removes the secret, or
/// reports `NoEntry` when there is none.
#[verifier::external_body]
fn erase_secret(entry: &keyring::Entry) -> (r: Result<(), SecretError>) {
    match entry.delete_credential() {
        Ok(()) => Ok(()),
        Err(keyring::Error::NoEntry) => Err(SecretError::Missing),
        Err(e) => Err(SecretError::Platform(e.to_string())),
    }
}

fn entry_error(e: SecretError) -> (r: StorageError)
    ensures
        r matches StorageError::EntryUnavailable(_),
{
    match e {
        SecretError::Missing => StorageError::EntryUnavailable(String::new()),
        SecretError::Platform(m) => StorageError::EntryUnavailable(m),
    }
}

/// Where settings live on disk, and access to the key store.
pub struct SecureStorage {
    pub config_path: String,
}

impl SecureStorage {
    pub fn new(config_path: String) -> (r: SecureStorage)
        ensures
            r.config_path == config_path,
    {
        SecureStorage { config_path }
    }

    /// Saves an API key under `key_name`.
    pub fn store_api_key(&self, key_name: &str, api_key: &str) -> (r: Result<(), StorageError>)
        ensures
            r != Err::<(), StorageError>(StorageError::KeyNotFound),
    {
        let entry = match open_entry(SERVICE_NAME, key_name) {
            Ok(e) => e,
            Err(e) => return Err(entry_error(e)),
        };
        match write_secret(&entry, api_key) {
            Ok(()) => Ok(()),
            Err(SecretError::Missing) => Err(StorageError::StoreFailed(String::new())),
            Err(SecretError::Platform(m)) => Err(StorageError::StoreFailed(m)),
        }
    }

    /// The API key stored under `key_name`.
    pub fn get_api_key(&self, key_name: &str) -> (r: Result<String, StorageError>) {
        let entry = match open_entry(SERVICE_NAME, key_name) {
            Ok(e) => e,
            Err(e) => return Err(entry_error(e)),
        };
        interpret_lookup(read_secret(&entry))
    }

    /// Deletes the key under `key_name`; a missing key is not an error.
    pub fn delete_api_key(&self, key_name: &str) -> (r: Result<(), StorageError>)
        ensures
            r != Err::<(), StorageError>(StorageError::KeyNotFound),
    {
        let entry = match open_entry(SERVICE_NAME, key_name) {
            Ok(e) => e,
            Err(e) => return Err(entry_error(e)),
        };
        interpret_deletion(erase_secret(&entry))
    }

    /// Whether a non-empty key is stored under `key_name`.
    pub fn has_api_key(&self, key_name: &str) -> (r: Result<bool, StorageError>)
        ensures
            r != Err::<bool, StorageError>(StorageError::KeyNotFound),
    {
        let entry = match open_entry(SERVICE_NAME, key_name) {
            Ok(e) => e,
            Err(e) => return Err(entry_error(e)),
        };
        interpret_presence(read_secret(&entry))
    }
}

/// The settings as loaded: what was stored, or the defaults with a request
/// to write them back when nothing was stored yet.
pub open spec fn loaded(stored: Option<AppSettings>, r: (AppSettings, bool)) -> bool {
    match stored {
        Some(s) => r == (s, false),
        None => is_default(r.0) && r.1,
    }
}

/// Access to settings and keys for the rest of the application.
pub struct SettingsService {
    storage: SecureStorage,
}

impl SettingsService {
    pub fn new(storage: SecureStorage) -> (r: SettingsService)
        ensures
            r.config_path() == storage.config_path,
    {
        SettingsService { storage }
    }

    pub closed spec fn config_path(&self) -> String {
        self.storage.config_path
    }

    /// Where the settings file lives.
    pub fn settings_path(&self) -> (r: &String)
        ensures
            *r == self.config_path(),
    {
        &self.storage.config_path
    }

    /// Settings from what the settings file held (`None` when it does not
    /// exist). The flag asks the caller to write the defaults back.
    pub fn load(&self, stored: Option<AppSettings>) -> (r: (AppSettings, bool))
        ensures
            loaded(stored, r),
    {
        match stored {
            Some(s) => (s, false),
            None => (AppSettings::default(), true),
        }
    }

    pub fn store_api_key(&self, key_name: &str, api_key: &str) -> (r: Result<(), StorageError>)
        ensures
            r != Err::<(), StorageError>(StorageError::KeyNotFound),
    {
        self.storage.store_api_key(key_name, api_key)
    }

    pub fn get_api_key(&self, key_name: &str) -> (r: Result<String, StorageError>) {
        self.storage.get_api_key(key_name)
    }

    pub fn delete_api_key(&self, key_name: &str) -> (r: Result<(), StorageError>)
        ensures
            r != Err::<(), StorageError>(StorageError::KeyNotFound),
    {
        self.storage.delete_api_key(key_name)
    }

    pub fn has_api_key(&self, key_name: &str) -> (r: Result<bool, StorageError>)
        ensures
            r != Err::<bool, StorageError>(StorageError::KeyNotFound),
    {
        self.storage.has_api_key(key_name)
    }
}

} // verus!
