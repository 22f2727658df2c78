use easy_dictate::settings::{
    check_hotkey, AppSettings, LLMProvider, SettingsValidationError, TranscriptionProvider,
    CONFIG_FILE,
};

#[test]
fn test_app_settings_default() {
    let settings = AppSettings::default();
    assert_eq!(settings.provider, TranscriptionProvider::OpenAI);
    assert_eq!(settings.hotkey, "Ctrl+Shift+Space");
    assert_eq!(settings.model, "gpt-4o-transcribe");
    assert!(settings.simulate_typing);
    assert!(settings.copy_to_clipboard);
    assert!(!settings.auto_start);
    assert!(settings.auto_update);
}

#[test]
fn test_transcription_provider_is_mock() {
    assert!(TranscriptionProvider::Mock.is_mock());
    assert!(!TranscriptionProvider::OpenAI.is_mock());
    assert!(!TranscriptionProvider::Groq.is_mock());
    assert!(!TranscriptionProvider::ElevenLabs.is_mock());
}

#[test]
fn test_normalized_replaces_empty_hotkey_with_default() {
    let mut settings = AppSettings::default();
    settings.hotkey = "".to_string();

    let normalized = settings.normalized();
    assert_eq!(normalized.hotkey, "Ctrl+Shift+Space");
}

#[test]
fn test_validate_invalid_hotkey_no_modifiers() {
    let mut settings = AppSettings::default();
    settings.hotkey = "A".to_string(); // No modifiers

    let result = settings.validate();
    assert!(result.is_err());
}

#[test]
fn test_validate_valid_hotkey() {
    let mut settings = AppSettings::default();
    settings.hotkey = "Ctrl+Shift+A".to_string();

    let result = settings.validate();
    assert!(result.is_ok());
}

#[test]
fn test_validate_allows_save_without_api_key() {
    let mut settings = AppSettings::default();
    settings.api_key = "".to_string(); // Empty API key
    settings.hotkey = "Ctrl+Shift+Space".to_string();

    // Should succeed - API key not required for saving
    let result = settings.validate();
    assert!(result.is_ok());
}

#[test]
fn test_validate_for_transcription_requires_api_key() {
    let mut settings = AppSettings::default();
    settings.provider = TranscriptionProvider::OpenAI;
    settings.api_key = "".to_string();

    let result = settings.validate_for_transcription();
    assert!(result.is_err());
    assert!(matches!(
        result.unwrap_err(),
        SettingsValidationError::MissingApiKey("OpenAI")
    ));
}

#[test]
fn test_validate_for_transcription_mock_no_api_key() {
    let mut settings = AppSettings::default();
    settings.provider = TranscriptionProvider::Mock;
    settings.api_key = "".to_string();

    // Mock provider doesn't need API key
    let result = settings.validate_for_transcription();
    assert!(result.is_ok());
}

#[test]
fn test_validate_for_transcription_with_api_key() {
    let mut settings = AppSettings::default();
    settings.provider = TranscriptionProvider::OpenAI;
    settings.api_key = "sk-test123".to_string();

    let result = settings.validate_for_transcription();
    assert!(result.is_ok());
}

#[test]
fn test_normalized_trims_whitespace() {
    let mut settings = AppSettings::default();
    settings.api_key = "  sk-test123  ".to_string();
    settings.model = "  gpt-4  ".to_string();
    settings.hotkey = "  Ctrl+Shift+A  ".to_string();

    let normalized = settings.normalized();
    assert_eq!(normalized.api_key, "sk-test123");
    assert_eq!(normalized.model, "gpt-4");
    assert_eq!(normalized.hotkey, "Ctrl+Shift+A");
}

#[test]
fn test_normalized_uses_defaults_for_empty() {
    let mut settings = AppSettings::default();
    settings.model = "".to_string();
    settings.hotkey = "".to_string();
    settings.target_language = "".to_string();

    let normalized = settings.normalized();
    assert_eq!(normalized.model, "gpt-4o-transcribe");
    assert_eq!(normalized.hotkey, "Ctrl+Shift+Space");
    assert_eq!(normalized.target_language, "English");
}

#[test]
fn test_requires_llm_when_auto_translate() {
    let mut settings = AppSettings::default();
    settings.auto_translate = true;
    assert!(settings.requires_llm());
}

#[test]
fn test_requires_llm_when_custom_instructions() {
    let mut settings = AppSettings::default();
    settings.use_custom_instructions = true;
    settings.custom_instructions = "Custom prompt".to_string();
    assert!(settings.requires_llm());
}

#[test]
fn test_does_not_require_llm_by_default() {
    let settings = AppSettings::default();
    assert!(!settings.requires_llm());
}

#[test]
fn test_is_valid_hotkey_with_function_keys_no_modifiers() {
    let mut settings = AppSettings::default();

    // Function keys can be used without modifiers
    for i in 1..=24 {
        settings.hotkey = format!("F{}", i);
        assert!(settings.is_valid_hotkey(), "F{} should be valid", i);
    }
}

#[test]
fn test_is_valid_hotkey_with_modifiers() {
    let mut settings = AppSettings::default();

    let valid_combinations = vec![
        "Ctrl+A",
        "Shift+B",
        "Alt+C",
        "Win+D",
        "Ctrl+Shift+E",
        "Ctrl+Alt+F",
        "Ctrl+Shift+Alt+G",
    ];

    for hotkey in valid_combinations {
        settings.hotkey = hotkey.to_string();
        assert!(settings.is_valid_hotkey(), "{} should be valid", hotkey);
    }
}

#[test]
fn default_settings_hold_every_documented_value() {
    let settings = AppSettings::default();
    assert_eq!(settings.llm_provider, LLMProvider::OpenAI);
    assert_eq!(settings.api_key, "");
    assert_eq!(settings.groq_api_key, "");
    assert_eq!(settings.elevenlabs_api_key, "");
    assert_eq!(settings.translate_hotkey, "");
    assert_eq!(settings.toggle_translate_hotkey, "");
    assert!(settings.use_streaming);
    assert!(!settings.auto_translate);
    assert_eq!(settings.target_language, "English");
    assert!(!settings.use_custom_instructions);
    assert_eq!(settings.custom_instructions, "");
    assert_eq!(CONFIG_FILE, "settings.json");
}

#[test]
fn provider_names() {
    assert_eq!(TranscriptionProvider::OpenAI.display_name(), "OpenAI");
    assert_eq!(TranscriptionProvider::Groq.display_name(), "Groq");
    assert_eq!(TranscriptionProvider::ElevenLabs.display_name(), "ElevenLabs");
    assert_eq!(TranscriptionProvider::Mock.display_name(), "Mock (Testing)");
    assert_eq!(LLMProvider::OpenAI.display_name(), "OpenAI");
    assert_eq!(LLMProvider::Groq.display_name(), "Groq");
}

#[test]
fn normalized_hotkey_collapses_double_spaces() {
    let mut settings = AppSettings::default();
    settings.hotkey = " Ctrl  +  A ".to_string();
    assert_eq!(settings.normalized_hotkey(), "Ctrl + A");
    settings.hotkey = "Ctrl   +A".to_string();
    assert_eq!(settings.normalized_hotkey(), "Ctrl  +A");
    settings.hotkey = "\u{2003}\t\n".to_string();
    assert_eq!(settings.normalized_hotkey(), "Ctrl+Shift+Space");
}

#[test]
fn normalized_keeps_the_elevenlabs_key_and_drops_blank_instructions() {
    let mut settings = AppSettings::default();
    settings.elevenlabs_api_key = "  el-key  ".to_string();
    settings.groq_api_key = "\tgq \n".to_string();
    settings.translate_hotkey = " Ctrl+T ".to_string();
    settings.toggle_translate_hotkey = " Ctrl+Y ".to_string();
    settings.use_custom_instructions = true;
    settings.custom_instructions = "   ".to_string();
    let normalized = settings.normalized();
    assert_eq!(normalized.elevenlabs_api_key, "  el-key  ");
    assert_eq!(normalized.groq_api_key, "gq");
    assert_eq!(normalized.translate_hotkey, "Ctrl+T");
    assert_eq!(normalized.toggle_translate_hotkey, "Ctrl+Y");
    assert!(!normalized.use_custom_instructions);
    assert_eq!(normalized.custom_instructions, "");
}

#[test]
fn normalizing_twice_changes_nothing_more() {
    let mut settings = AppSettings::default();
    settings.api_key = "  key ".to_string();
    settings.hotkey = "  Ctrl  +  Shift+A ".to_string();
    settings.model = " ".to_string();
    let once = settings.normalized();
    let twice = once.clone().normalized();
    assert_eq!(once.api_key, twice.api_key);
    assert_eq!(once.hotkey, twice.hotkey);
    assert_eq!(once.model, twice.model);
    assert_eq!(once.target_language, twice.target_language);
}

#[test]
fn hotkey_rule_edge_cases() {
    assert!(check_hotkey("F"));
    assert!(check_hotkey("F1"));
    assert!(check_hotkey("F24"));
    assert!(!check_hotkey("F25"));
    assert!(!check_hotkey("F0"));
    assert!(!check_hotkey("F01"));
    assert!(!check_hotkey("Space"));
    assert!(check_hotkey("Ctrl+Space"));
    assert!(check_hotkey("Ctrl + Space"));
    assert!(check_hotkey("Alt+0"));
    assert!(check_hotkey("Win+PrintScreen"));
    assert!(!check_hotkey("Ctrl+a"));
    assert!(!check_hotkey("Ctrl+"));
    assert!(!check_hotkey("+A"));
    assert!(!check_hotkey("Cmd+A"));
    assert!(!check_hotkey("ctrl+A"));
    assert!(!check_hotkey("Ctrl+Shift"));
    assert!(!check_hotkey(""));
}

#[test]
fn validate_reports_the_normalized_hotkey() {
    let mut settings = AppSettings::default();
    settings.hotkey = "  Hyper+A ".to_string();
    match settings.validate() {
        Err(SettingsValidationError::InvalidHotkey(hotkey)) => assert_eq!(hotkey, "Hyper+A"),
        _ => panic!("expected an invalid hotkey"),
    }
}

#[test]
fn validation_error_messages() {
    assert_eq!(
        SettingsValidationError::MissingHotkey.message(),
        "A global hotkey must be set."
    );
    assert_eq!(
        SettingsValidationError::InvalidHotkey("X+Y".to_string()).message(),
        "Global hotkey 'X+Y' is not valid."
    );
    assert_eq!(
        SettingsValidationError::MissingApiKey("Groq").message(),
        "Groq API key is required."
    );
}

#[test]
fn validate_for_transcription_names_the_missing_key() {
    let mut settings = AppSettings::default();
    settings.provider = TranscriptionProvider::Groq;
    settings.api_key = "sk".to_string();
    assert!(matches!(
        settings.validate_for_transcription().unwrap_err(),
        SettingsValidationError::MissingApiKey("Groq")
    ));
    settings.provider = TranscriptionProvider::ElevenLabs;
    settings.elevenlabs_api_key = " ".to_string();
    assert!(matches!(
        settings.validate_for_transcription().unwrap_err(),
        SettingsValidationError::MissingApiKey("ElevenLabs")
    ));
    settings.elevenlabs_api_key = "el".to_string();
    assert!(settings.validate_for_transcription().is_ok());
    settings.auto_translate = true;
    settings.llm_provider = LLMProvider::Groq;
    assert!(matches!(
        settings.validate_for_transcription().unwrap_err(),
        SettingsValidationError::MissingApiKey("Groq")
    ));
    settings.llm_provider = LLMProvider::OpenAI;
    assert!(settings.validate_for_transcription().is_ok());
    settings.api_key = String::new();
    assert!(matches!(
        settings.validate_for_transcription().unwrap_err(),
        SettingsValidationError::MissingApiKey("OpenAI")
    ));
    settings.provider = TranscriptionProvider::Mock;
    assert!(settings.validate_for_transcription().is_err());
    settings.auto_translate = false;
    assert!(settings.validate_for_transcription().is_ok());
}

#[test]
fn blank_custom_instructions_need_no_llm() {
    let mut settings = AppSettings::default();
    settings.use_custom_instructions = true;
    settings.custom_instructions = " \t ".to_string();
    assert!(!settings.requires_llm());
    settings.use_custom_instructions = false;
    settings.custom_instructions = "Be brief".to_string();
    assert!(!settings.requires_llm());
}
