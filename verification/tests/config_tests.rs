use vrc_companion::config::{
    default_auto_input_enabled, default_auto_input_send_enter, default_auto_translate_enabled,
    default_clipboard_enabled, default_eliza_enabled, default_eliza_response_to_vrchat_enabled,
    default_eliza_url, default_silence_duration_secs, default_silence_threshold,
    default_translate_lang_custom, default_translate_lang_preset, default_vrchat_enabled, Config,
};

#[test]
fn test_default_config() {
    let config = Config::default();
    assert_eq!(f32::from_bits(config.silence_duration_secs_bits), 2.0);
    assert_eq!(f32::from_bits(config.silence_threshold_bits), 0.01);
    assert!(config.clipboard_enabled);
    assert!(!config.auto_input_enabled);
    assert!(!config.vrchat_enabled);
    assert!(!config.eliza_enabled);
}

#[test]
fn test_auto_input_and_vrchat_are_mutually_exclusive() {
    let mut config = Config::default();
    config.enable_vrchat_exclusive();
    assert!(config.vrchat_enabled);
    assert!(!config.auto_input_enabled);

    config.enable_auto_input_exclusive();
    assert!(config.auto_input_enabled);
    assert!(!config.vrchat_enabled);
}

#[test]
fn test_eliza_and_auto_translate_are_mutually_exclusive() {
    let mut config = Config::default();
    config.enable_auto_translate_exclusive();
    assert!(config.auto_translate_enabled);
    assert!(!config.eliza_enabled);

    config.enable_eliza_exclusive();
    assert!(config.eliza_enabled);
    assert!(!config.auto_translate_enabled);
}

#[test]
fn test_translate_target_lang_presets() {
    let mut config = Config::default();
    assert_eq!(config.translate_target_lang(), "英語");

    config.translate_lang_preset = "CN".to_string();
    assert_eq!(config.translate_target_lang(), "中国語");

    config.translate_lang_preset = "CUSTOM".to_string();
    config.translate_lang_custom = "フランス語".to_string();
    assert_eq!(config.translate_target_lang(), "フランス語");
}

#[test]
fn default_values_of_every_setting() {
    assert_eq!(f32::from_bits(default_silence_duration_secs()), 2.0f32);
    assert_eq!(f32::from_bits(default_silence_threshold()), 0.01f32);
    assert!(default_clipboard_enabled());
    assert!(!default_auto_input_enabled());
    assert!(!default_auto_input_send_enter());
    assert!(!default_vrchat_enabled());
    assert!(!default_eliza_enabled());
    assert!(!default_eliza_response_to_vrchat_enabled());
    assert_eq!(default_eliza_url(), "http://localhost:9096");
    assert!(!default_auto_translate_enabled());
    assert_eq!(default_translate_lang_preset(), "EN");
    assert_eq!(default_translate_lang_custom(), "");

    let config = Config::default();
    assert_eq!(config.xai_api_key, "");
    assert_eq!(config.input_device_name, None);
    assert!(!config.auto_input_send_enter);
    assert!(!config.eliza_response_to_vrchat_enabled);
    assert_eq!(config.eliza_url, "http://localhost:9096");
    assert!(!config.auto_translate_enabled);
    assert_eq!(config.translate_lang_preset, "EN");
    assert_eq!(config.translate_lang_custom, "");
}

#[test]
fn exclusive_setters_leave_the_other_pair_alone() {
    let mut config = Config::default();
    config.eliza_enabled = true;
    config.clipboard_enabled = false;
    config.enable_vrchat_exclusive();
    assert!(config.eliza_enabled);
    assert!(!config.auto_translate_enabled);
    assert!(!config.clipboard_enabled);

    config.enable_auto_translate_exclusive();
    assert!(config.vrchat_enabled);
    assert!(!config.auto_input_enabled);
    assert!(config.auto_translate_enabled);
    assert!(!config.eliza_enabled);
}

#[test]
fn target_lang_is_case_sensitive_and_exact() {
    let mut config = Config::default();
    config.translate_lang_preset = "en".to_string();
    config.translate_lang_custom = "ドイツ語".to_string();
    assert_eq!(config.translate_target_lang(), "ドイツ語");

    config.translate_lang_preset = "ENG".to_string();
    assert_eq!(config.translate_target_lang(), "ドイツ語");

    config.translate_lang_preset = "".to_string();
    config.translate_lang_custom = "".to_string();
    assert_eq!(config.translate_target_lang(), "");
}
