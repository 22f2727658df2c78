use easy_dictate::settings::{AppSettings, LLMProvider, TranscriptionProvider};
use serde_json::Value;

fn provider_name(provider: TranscriptionProvider) -> &'static str {
    match provider {
        TranscriptionProvider::OpenAI => "openai",
        TranscriptionProvider::Groq => "groq",
        TranscriptionProvider::ElevenLabs => "elevenlabs",
        TranscriptionProvider::Mock => "mock",
    }
}

fn provider_of(name: &str) -> Option<TranscriptionProvider> {
    match name {
        "openai" => Some(TranscriptionProvider::OpenAI),
        "groq" => Some(TranscriptionProvider::Groq),
        "elevenlabs" => Some(TranscriptionProvider::ElevenLabs),
        "mock" => Some(TranscriptionProvider::Mock),
        _ => None,
    }
}

fn llm_name(provider: LLMProvider) -> &'static str {
    match provider {
        LLMProvider::OpenAI => "openai",
        LLMProvider::Groq => "groq",
    }
}

fn llm_of(name: &str) -> Option<LLMProvider> {
    match name {
        "openai" => Some(LLMProvider::OpenAI),
        "groq" => Some(LLMProvider::Groq),
        _ => None,
    }
}

fn to_json(settings: &AppSettings) -> Value {
    let mut map = serde_json::Map::new();
    map.insert("provider".into(), provider_name(settings.provider).into());
    map.insert("llm_provider".into(), llm_name(settings.llm_provider).into());
    map.insert("api_key".into(), settings.api_key.clone().into());
    map.insert("groq_api_key".into(), settings.groq_api_key.clone().into());
    map.insert(
        "elevenlabs_api_key".into(),
        settings.elevenlabs_api_key.clone().into(),
    );
    map.insert("model".into(), settings.model.clone().into());
    map.insert("hotkey".into(), settings.hotkey.clone().into());
    map.insert(
        "translate_hotkey".into(),
        settings.translate_hotkey.clone().into(),
    );
    map.insert(
        "toggle_translate_hotkey".into(),
        settings.toggle_translate_hotkey.clone().into(),
    );
    map.insert("simulate_typing".into(), settings.simulate_typing.into());
    map.insert("copy_to_clipboard".into(), settings.copy_to_clipboard.into());
    map.insert("auto_start".into(), settings.auto_start.into());
    map.insert("auto_update".into(), settings.auto_update.into());
    map.insert("use_streaming".into(), settings.use_streaming.into());
    map.insert("auto_translate".into(), settings.auto_translate.into());
    map.insert(
        "target_language".into(),
        settings.target_language.clone().into(),
    );
    map.insert(
        "use_custom_instructions".into(),
        settings.use_custom_instructions.into(),
    );
    map.insert(
        "custom_instructions".into(),
        settings.custom_instructions.clone().into(),
    );
    Value::Object(map)
}

fn text(value: &Value, key: &str, fallback: &str) -> String {
    value
        .get(key)
        .and_then(Value::as_str)
        .unwrap_or(fallback)
        .to_string()
}

fn flag(value: &Value, key: &str, fallback: bool) -> bool {
    value.get(key).and_then(Value::as_bool).unwrap_or(fallback)
}

/// Reads settings, taking the default for every field that is missing.
fn from_json(value: &Value) -> AppSettings {
    let d = AppSettings::default();
    AppSettings {
        provider: value
            .get("provider")
            .and_then(Value::as_str)
            .and_then(provider_of)
            .unwrap_or(d.provider),
        llm_provider: value
            .get("llm_provider")
            .and_then(Value::as_str)
            .and_then(llm_of)
            .unwrap_or(d.llm_provider),
        api_key: text(value, "api_key", &d.api_key),
        groq_api_key: text(value, "groq_api_key", &d.groq_api_key),
        elevenlabs_api_key: text(value, "elevenlabs_api_key", &d.elevenlabs_api_key),
        model: text(value, "model", &d.model),
        hotkey: text(value, "hotkey", &d.hotkey),
        translate_hotkey: text(value, "translate_hotkey", &d.translate_hotkey),
        toggle_translate_hotkey: text(
            value,
            "toggle_translate_hotkey",
            &d.toggle_translate_hotkey,
        ),
        simulate_typing: flag(value, "simulate_typing", d.simulate_typing),
        copy_to_clipboard: flag(value, "copy_to_clipboard", d.copy_to_clipboard),
        auto_start: flag(value, "auto_start", d.auto_start),
        auto_update: flag(value, "auto_update", d.auto_update),
        use_streaming: flag(value, "use_streaming", d.use_streaming),
        auto_translate: flag(value, "auto_translate", d.auto_translate),
        target_language: text(value, "target_language", &d.target_language),
        use_custom_instructions: flag(
            value,
            "use_custom_instructions",
            d.use_custom_instructions,
        ),
        custom_instructions: text(value, "custom_instructions", &d.custom_instructions),
    }
}

#[test]
fn test_serde_roundtrip() {
    let original = AppSettings::default();
    let serialized = serde_json::to_string(&to_json(&original)).unwrap();
    let parsed: Value = serde_json::from_str(&serialized).unwrap();
    let deserialized: AppSettings = from_json(&parsed);

    assert_eq!(original.provider, deserialized.provider);
    assert_eq!(original.hotkey, deserialized.hotkey);
    assert_eq!(original.model, deserialized.model);
}

#[test]
fn stored_settings_come_back_normalized() {
    let parsed: Value = serde_json::from_str(
        "{\"provider\":\"elevenlabs\",\"hotkey\":\"  F9 \",\"model\":\"\",\"auto_translate\":true}",
    )
    .unwrap();
    let settings = from_json(&parsed).normalized();
    assert_eq!(settings.provider, TranscriptionProvider::ElevenLabs);
    assert_eq!(settings.hotkey, "F9");
    assert_eq!(settings.model, "gpt-4o-transcribe");
    assert!(settings.auto_translate);
    assert!(settings.simulate_typing);
    assert!(settings.validate().is_ok());
}
