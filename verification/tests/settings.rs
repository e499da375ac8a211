use devvoice::config::{
    default_gemini_model, default_gemini_prompt, default_http_port, default_shortcut,
    migrate_config, normalize_shortcut, AppConfig, ConfigStore, KeyChange, KeyringDelete,
    KeyringRead, TtsPrecision, VoiceGender, VoiceModel,
};

#[test]
fn shortcuts_are_spelled_out() {
    assert_eq!(normalize_shortcut(" CmdOrCtrl+Shift+S "), "CommandOrControl+Shift+S");
    assert_eq!(normalize_shortcut("CmdOrControl+A"), "CommandOrControl+A");
    assert_eq!(normalize_shortcut("Cmd+Ctrl+S"), "Command+Control+S");
    assert_eq!(normalize_shortcut("Command+Control+S"), "Command+Control+S");
    assert_eq!(normalize_shortcut("  "), "");
}

#[test]
fn normalizing_a_shortcut_twice_changes_nothing() {
    for shortcut in ["CmdOrCtrl+X", "Cmd+Ctrl+Alt+Q", "F5", "CmdOrControl+CmdOrCtrl"] {
        let once = normalize_shortcut(shortcut);
        assert_eq!(normalize_shortcut(&once), once);
        assert!(!once.trim().is_empty());
    }
}

#[test]
fn defaults_are_those_of_a_first_start() {
    let config = AppConfig::default();
    assert_eq!(config.config_version, 1);
    assert!(!config.gemini_enabled);
    assert_eq!(config.gemini_model, "gemini-2.5-flash");
    assert_eq!(config.gemini_model, default_gemini_model());
    assert!(config.gemini_prompt.starts_with("Rewrite the selected text for speech."));
    assert_eq!(config.gemini_prompt, default_gemini_prompt());
    assert_eq!(config.shortcut, "Command+Control+S");
    assert_eq!(config.shortcut, default_shortcut());
    assert_eq!(config.http_port, 9876);
    assert_eq!(config.http_port, default_http_port());
    assert_eq!(config.voice_gender, VoiceGender::Woman);
    assert_eq!(VoiceGender::default(), VoiceGender::Woman);
    assert!(config.serves_http());
}

fn odd_config() -> AppConfig {
    let mut config = AppConfig::default();
    config.config_version = 0;
    config.gemini_model = "  ".to_owned();
    config.gemini_prompt = String::new();
    config.shortcut = " CmdOrCtrl+K ".to_owned();
    config.http_port = 0;
    config.voice_model = VoiceModel::Kokoro;
    config.tts_precision = TtsPrecision::F16;
    config
}

#[test]
fn migration_completes_a_config() {
    let mut config = odd_config();
    migrate_config(&mut config);
    assert_eq!(config.config_version, 1);
    assert_eq!(config.gemini_model, "gemini-2.5-flash");
    assert_eq!(config.gemini_prompt, default_gemini_prompt());
    assert_eq!(config.shortcut, "CommandOrControl+K");
    assert_eq!(config.voice_model, VoiceModel::Kokoro);
    assert_eq!(config.tts_precision, TtsPrecision::F16);
    assert!(!config.serves_http());
    let once = format!("{:?}", config);
    migrate_config(&mut config);
    assert_eq!(format!("{:?}", config), once);
}

#[test]
fn migration_keeps_the_default_config() {
    let mut config = AppConfig::default();
    migrate_config(&mut config);
    assert_eq!(format!("{:?}", config), format!("{:?}", AppConfig::default()));
}

#[test]
fn a_blank_shortcut_becomes_the_default() {
    let mut config = AppConfig::default();
    config.shortcut = " \t".to_owned();
    migrate_config(&mut config);
    assert_eq!(config.shortcut, "Command+Control+S");
}

#[test]
fn a_store_is_loaded() {
    let (store, config) = ConfigStore::load("/conf", "/data", None);
    assert_eq!(store.config_path(), "/conf/settings.json");
    assert_eq!(store.data_dir(), "/data");
    assert_eq!(format!("{:?}", config), format!("{:?}", AppConfig::default()));
    let (_, config) = ConfigStore::load("/conf", "/data", Some(odd_config()));
    assert_eq!(config.shortcut, "CommandOrControl+K");
    assert_eq!(config.config_version, 1);
}

#[test]
fn a_missing_key_is_no_error() {
    assert_eq!(
        ConfigStore::read_api_key(KeyringRead::Password("k".to_owned())),
        Ok(Some("k".to_owned()))
    );
    assert_eq!(ConfigStore::read_api_key(KeyringRead::NoEntry), Ok(None));
    assert_eq!(
        ConfigStore::read_api_key(KeyringRead::Failed("locked".to_owned())),
        Err("locked".to_owned())
    );
    assert_eq!(ConfigStore::key_deleted(KeyringDelete::Deleted), Ok(()));
    assert_eq!(ConfigStore::key_deleted(KeyringDelete::NoEntry), Ok(()));
    assert_eq!(
        ConfigStore::key_deleted(KeyringDelete::Failed("locked".to_owned())),
        Err("locked".to_owned())
    );
}

#[test]
fn blank_keys_delete() {
    assert!(matches!(ConfigStore::set_api_key(Some(" k ")), KeyChange::Store(key) if key == "k"));
    assert!(matches!(ConfigStore::set_api_key(Some("  ")), KeyChange::Delete));
    assert!(matches!(ConfigStore::set_api_key(None), KeyChange::Delete));
}

#[test]
fn models_have_names() {
    assert_eq!(VoiceModel::VibeVoiceRealtime.display_name(), "VibeVoice Realtime 0.5B");
    assert_eq!(VoiceModel::VibeVoice.display_name(), "VibeVoice 1.5B");
    assert_eq!(VoiceModel::ParlerTts.display_name(), "Parler-TTS");
    assert_eq!(VoiceModel::Kokoro.display_name(), "Kokoro-82M");
}
