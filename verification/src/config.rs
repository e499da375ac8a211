//! The saved configuration: its defaults, its migration and the keys it keeps.

use vstd::prelude::*;
use vstd::string::*;

use crate::text;

verus! {

/// Name of the file that holds the settings.
pub const SETTINGS_FILE: &'static str = "settings.json";

/// Service under which the API key is kept.
pub const KEY_SERVICE: &'static str = "devvoice";

/// Account under which the API key is kept.
pub const KEY_ACCOUNT: &'static str = "gemini-api-key";

/// The current layout of the settings.
pub const CONFIG_VERSION: u8 = 1;

pub const DEFAULT_GEMINI_MODEL: &'static str = "gemini-2.5-flash";

pub const DEFAULT_GEMINI_PROMPT: &'static str =
    "Rewrite the selected text for speech.\n\n1. Preserve the meaning.\n2. Make the wording sound natural when spoken aloud.\n3. Keep technical terms precise.\n4. Expand abbreviations only when that improves pronunciation.\n5. Keep code-adjacent phrases readable for a senior software engineer.\n\nReturn only the rewritten text.";

pub const DEFAULT_SHORTCUT: &'static str = "Command+Control+S";

pub const DEFAULT_HTTP_PORT: u16 = 9876;

/// Target length of a speech chunk in characters.
pub const DEFAULT_CHUNK_SIZE: usize = 220;

/// The voice that the built-in settings ask for.
#[derive(Debug, Clone, Copy, PartialEq, Eq, Structural)]
pub enum VoiceGender {
    Woman,
    Man,
}

impl Default for VoiceGender {
    fn default() -> (res: Self)
        ensures
            res == VoiceGender::Woman,
    {
        VoiceGender::Woman
    }
}

/// The speech models that can be selected.
#[derive(Debug, Clone, Copy, PartialEq, Eq, Hash, Structural)]
pub enum VoiceModel {
    VibeVoiceRealtime,
    VibeVoice,
    ParlerTts,
    Kokoro,
}

/// The name of a model as users see it.
pub open spec fn model_name(model: VoiceModel) -> Seq<char> {
    match model {
        VoiceModel::VibeVoiceRealtime => "VibeVoice Realtime 0.5B"@,
        VoiceModel::VibeVoice => "VibeVoice 1.5B"@,
        VoiceModel::ParlerTts => "Parler-TTS"@,
        VoiceModel::Kokoro => "Kokoro-82M"@,
    }
}

impl VoiceModel {
    /// The name of the model as users see it.
    pub fn display_name(self) -> (res: &'static str)
        ensures
            res@ == model_name(self),
    {
        match self {
            VoiceModel::VibeVoiceRealtime => "VibeVoice Realtime 0.5B",
            VoiceModel::VibeVoice => "VibeVoice 1.5B",
            VoiceModel::ParlerTts => "Parler-TTS",
            VoiceModel::Kokoro => "Kokoro-82M",
        }
    }
}

/// The numeric precision that a model is asked to run with.
#[derive(Debug, Clone, Copy, PartialEq, Eq, Hash, Structural)]
pub enum TtsPrecision {
    Auto,
    F32,
    F16,
    BF16,
}

/// The saved configuration.
#[derive(Debug)]
pub struct AppConfig {
    pub config_version: u8,
    pub gemini_enabled: bool,
    pub gemini_model: String,
    pub gemini_prompt: String,
    pub shortcut: String,
    pub voice_gender: VoiceGender,
    pub voice_model: VoiceModel,
    pub voice_preset: String,
    pub tts_precision: TtsPrecision,
    pub default_chunk_size: usize,
    /// Port for the local HTTP API. Set to 0 to disable.
    pub http_port: u16,
}

/// The configuration as a mathematical value.
pub struct ConfigView {
    pub config_version: u8,
    pub gemini_enabled: bool,
    pub gemini_model: Seq<char>,
    pub gemini_prompt: Seq<char>,
    pub shortcut: Seq<char>,
    pub voice_gender: VoiceGender,
    pub voice_model: VoiceModel,
    pub voice_preset: Seq<char>,
    pub tts_precision: TtsPrecision,
    pub default_chunk_size: usize,
    pub http_port: u16,
}

impl View for AppConfig {
    type V = ConfigView;

    open spec fn view(&self) -> ConfigView {
        ConfigView {
            config_version: self.config_version,
            gemini_enabled: self.gemini_enabled,
            gemini_model: self.gemini_model@,
            gemini_prompt: self.gemini_prompt@,
            shortcut: self.shortcut@,
            voice_gender: self.voice_gender,
            voice_model: self.voice_model,
            voice_preset: self.voice_preset@,
            tts_precision: self.tts_precision,
            default_chunk_size: self.default_chunk_size,
            http_port: self.http_port,
        }
    }
}

impl Clone for AppConfig {
    fn clone(&self) -> (res: Self)
        ensures
            res@ == self@,
    {
        AppConfig {
            config_version: self.config_version,
            gemini_enabled: self.gemini_enabled,
            gemini_model: self.gemini_model.clone(),
            gemini_prompt: self.gemini_prompt.clone(),
            shortcut: self.shortcut.clone(),
            voice_gender: self.voice_gender,
            voice_model: self.voice_model,
            voice_preset: self.voice_preset.clone(),
            tts_precision: self.tts_precision,
            default_chunk_size: self.default_chunk_size,
            http_port: self.http_port,
        }
    }
}

pub fn default_gemini_model() -> (res: String)
    ensures
        res@ == DEFAULT_GEMINI_MODEL@,
{
    DEFAULT_GEMINI_MODEL.to_owned()
}

pub fn default_gemini_prompt() -> (res: String)
    ensures
        res@ == DEFAULT_GEMINI_PROMPT@,
{
    DEFAULT_GEMINI_PROMPT.to_owned()
}

pub fn default_shortcut() -> (res: String)
    ensures
        res@ == DEFAULT_SHORTCUT@,
{
    DEFAULT_SHORTCUT.to_owned()
}

pub fn default_http_port() -> (res: u16)
    ensures
        res == DEFAULT_HTTP_PORT,
{
    DEFAULT_HTTP_PORT
}

/// The configuration of a first start.
pub open spec fn default_config() -> ConfigView {
    ConfigView {
        config_version: CONFIG_VERSION,
        gemini_enabled: false,
        gemini_model: DEFAULT_GEMINI_MODEL@,
        gemini_prompt: DEFAULT_GEMINI_PROMPT@,
        shortcut: DEFAULT_SHORTCUT@,
        voice_gender: VoiceGender::Woman,
        voice_model: VoiceModel::VibeVoiceRealtime,
        voice_preset: Seq::empty(),
        tts_precision: TtsPrecision::Auto,
        default_chunk_size: DEFAULT_CHUNK_SIZE,
        http_port: DEFAULT_HTTP_PORT,
    }
}

impl Default for AppConfig {
    fn default() -> (res: Self)
        ensures
            res@ == default_config(),
    {
        AppConfig {
            config_version: CONFIG_VERSION,
            gemini_enabled: false,
            gemini_model: default_gemini_model(),
            gemini_prompt: default_gemini_prompt(),
            shortcut: default_shortcut(),
            voice_gender: VoiceGender::Woman,
            voice_model: VoiceModel::VibeVoiceRealtime,
            voice_preset: String::new(),
            tts_precision: TtsPrecision::Auto,
            default_chunk_size: DEFAULT_CHUNK_SIZE,
            http_port: DEFAULT_HTTP_PORT,
        }
    }
}

impl AppConfig {
    /// Whether the local HTTP API is served.
    pub fn serves_http(&self) -> (res: bool)
        ensures
            res == (self@.http_port > 0),
    {
        self.http_port > 0
    }
}

/// A shortcut with the short names of its modifier keys spelled out.
pub open spec fn normalized_shortcut(shortcut: Seq<char>) -> Seq<char> {
    let s1 = text::replaced(text::trimmed(shortcut), "CmdOrControl"@, "CommandOrControl"@);
    let s2 = text::replaced(s1, "CmdOrCtrl"@, "CommandOrControl"@);
    let s3 = text::replaced(s2, "Cmd"@, "Command"@);
    text::replaced(s3, "Ctrl"@, "Control"@)
}

/// The shortcut, trimmed, with the short names of its modifier keys spelled out.
pub fn normalize_shortcut(shortcut: &str) -> (res: String)
    ensures
        res@ == normalized_shortcut(shortcut@),
{
    proof {
        reveal_strlit("CmdOrControl");
        reveal_strlit("CmdOrCtrl");
        reveal_strlit("Cmd");
        reveal_strlit("Ctrl");
    }
    let s0 = text::trim(shortcut);
    let s1 = text::replace_all(s0.as_str(), "CmdOrControl", "CommandOrControl");
    let s2 = text::replace_all(s1.as_str(), "CmdOrCtrl", "CommandOrControl");
    let s3 = text::replace_all(s2.as_str(), "Cmd", "Command");
    text::replace_all(s3.as_str(), "Ctrl", "Control")
}

/// `value`, or `fallback` where `value` is blank.
pub open spec fn or_default(value: Seq<char>, fallback: Seq<char>) -> Seq<char> {
    if text::is_blank(value) {
        fallback
    } else {
        value
    }
}

/// A configuration read from disk, brought to the current layout.
pub open spec fn migrated(config: ConfigView) -> ConfigView {
    ConfigView {
        config_version: CONFIG_VERSION,
        shortcut: or_default(normalized_shortcut(config.shortcut), DEFAULT_SHORTCUT@),
        gemini_model: or_default(config.gemini_model, DEFAULT_GEMINI_MODEL@),
        gemini_prompt: or_default(config.gemini_prompt, DEFAULT_GEMINI_PROMPT@),
        ..config
    }
}

/// Brings a configuration read from disk to the current layout.
pub fn migrate_config(config: &mut AppConfig)
    ensures
        final(config)@ == migrated(old(config)@),
{
    if config.config_version != CONFIG_VERSION {
        config.config_version = CONFIG_VERSION;
    }
    config.shortcut = normalize_shortcut(config.shortcut.as_str());
    if text::blank(config.shortcut.as_str()) {
        config.shortcut = default_shortcut();
    }
    if text::blank(config.gemini_model.as_str()) {
        config.gemini_model = default_gemini_model();
    }
    if text::blank(config.gemini_prompt.as_str()) {
        config.gemini_prompt = default_gemini_prompt();
    }
}

/// What the key ring answered to a request for the stored key.
#[derive(Debug)]
pub enum KeyringRead {
    Password(String),
    NoEntry,
    Failed(String),
}

/// What the key ring answered to a request to delete the stored key.
#[derive(Debug)]
pub enum KeyringDelete {
    Deleted,
    NoEntry,
    Failed(String),
}

/// What is to be done to the stored key.
#[derive(Debug)]
pub enum KeyChange {
    Store(String),
    Delete,
}

/// Where the configuration is kept.
#[derive(Debug)]
pub struct ConfigStore {
    pub config_path: String,
    pub data_dir: String,
}

/// The configuration that a start begins with.
pub open spec fn initial_config(saved: Option<ConfigView>) -> ConfigView {
    match saved {
        Some(config) => migrated(config),
        None => default_config(),
    }
}

impl ConfigStore {
    /// The store in the given directories, and the configuration to start with and
    /// to write back: the saved one, migrated, or the default where none was saved.
    pub fn load(config_dir: &str, data_dir: &str, saved: Option<AppConfig>) -> (res: (
        ConfigStore,
        AppConfig,
    ))
        ensures
            res.0.config_path@ == text::joined_path(config_dir@, SETTINGS_FILE@),
            res.0.data_dir@ == data_dir@,
            res.1@ == initial_config(
                match saved {
                    Some(config) => Some(config@),
                    None => None,
                },
            ),
    {
        let config = match saved {
            Some(found) => {
                let mut config = found;
                migrate_config(&mut config);
                config
            },
            None => AppConfig::default(),
        };
        let store = ConfigStore {
            config_path: text::join_path(config_dir, SETTINGS_FILE),
            data_dir: data_dir.to_owned(),
        };
        (store, config)
    }

    /// The stored key: a missing entry is no error.
    pub fn read_api_key(answer: KeyringRead) -> (res: Result<Option<String>, String>)
        ensures
            match answer {
                KeyringRead::Password(password) => res == Ok::<Option<String>, String>(
                    Some(password),
                ),
                KeyringRead::NoEntry => res == Ok::<Option<String>, String>(None),
                KeyringRead::Failed(error) => res == Err::<Option<String>, String>(error),
            },
    {
        match answer {
            KeyringRead::Password(password) => Ok(Some(password)),
            KeyringRead::NoEntry => Ok(None),
            KeyringRead::Failed(error) => Err(error),
        }
    }

    /// What setting the key to `api_key` comes to: a blank key deletes the stored
    /// one, any other is stored without the white space around it.
    pub fn set_api_key(api_key: Option<&str>) -> (res: KeyChange)
        ensures
            match api_key {
                Some(key) if !text::is_blank(key@) => {
                    res matches KeyChange::Store(stored) && stored@ == text::trimmed(key@)
                },
                _ => res is Delete,
            },
    {
        match api_key {
            Some(key) => {
                let key = text::trim(key);
                if key.as_str().is_empty() {
                    KeyChange::Delete
                } else {
                    KeyChange::Store(key)
                }
            },
            None => KeyChange::Delete,
        }
    }

    /// The outcome of deleting the key: a missing entry is no error.
    pub fn key_deleted(answer: KeyringDelete) -> (res: Result<(), String>)
        ensures
            match answer {
                KeyringDelete::Failed(error) => res == Err::<(), String>(error),
                _ => res is Ok,
            },
    {
        match answer {
            KeyringDelete::Deleted => Ok(()),
            KeyringDelete::NoEntry => Ok(()),
            KeyringDelete::Failed(error) => Err(error),
        }
    }

    /// The file that holds the settings.
    pub fn config_path(&self) -> (res: &str)
        ensures
            res@ == self.config_path@,
    {
        self.config_path.as_str()
    }

    /// The directory that holds the application's data.
    pub fn data_dir(&self) -> (res: &str)
        ensures
            res@ == self.data_dir@,
    {
        self.data_dir.as_str()
    }
}

} // verus!
