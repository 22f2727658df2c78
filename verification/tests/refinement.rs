use easy_dictate::openai::{
    endpoint_url, first_choice, plan_refinement, RefinementPlan, RefinementRequest,
    TranscriptionRequest,
};
use easy_dictate::settings::{AppSettings, LLMProvider, TranscriptionProvider};
use easy_dictate::transcription::{
    groq_transcription_model, missing_refinement_key_message, missing_transcription_key_message,
    plan_post_processing, plan_stream_delivery, plan_transcription, plan_upload_delivery,
    PostProcessingPlan, TranscriptionPlan, MOCK_DELAY_MS, MOCK_TRANSCRIPT,
};

fn job() -> RefinementRequest {
    RefinementRequest {
        api_key: "sk".to_string(),
        model: "gpt".to_string(),
        auto_translate: false,
        target_language: "English".to_string(),
        custom_instructions: None,
        vocabulary: Vec::new(),
    }
}

#[test]
fn nothing_to_refine_gives_no_prompt() {
    let request = job();
    assert!(!request.has_custom_instructions());
    assert!(!request.has_vocabulary());
    assert!(!request.requires_refinement());
    assert_eq!(request.system_prompt(), None);
    let mut blank = job();
    blank.custom_instructions = Some("  \n".to_string());
    assert!(!blank.has_custom_instructions());
    assert_eq!(blank.system_prompt(), None);
}

#[test]
fn translation_prompt() {
    let mut request = job();
    request.auto_translate = true;
    request.target_language = "German".to_string();
    assert!(request.requires_refinement());
    assert_eq!(
        request.system_prompt().unwrap(),
        "You are assisting with high quality speech transcription cleanup. Translate the transcript into German, keeping the original intent and tone. Return only the updated transcript with no commentary."
    );
}

#[test]
fn custom_instructions_prompt() {
    let mut request = job();
    request.custom_instructions = Some("  Use British spelling. ".to_string());
    assert!(request.has_custom_instructions());
    assert_eq!(
        request.system_prompt().unwrap(),
        "You are assisting with high quality speech transcription cleanup. Polish the transcript and fix clear mistakes while keeping intent. Follow the user's additional instructions: Use British spelling. Return only the updated transcript with no commentary."
    );
}

#[test]
fn vocabulary_prompt() {
    let mut request = job();
    request.vocabulary = vec!["Verus".to_string(), "tokio".to_string(), "cpal".to_string()];
    assert!(request.has_vocabulary());
    assert_eq!(
        request.system_prompt().unwrap(),
        "You are assisting with high quality speech transcription cleanup. Fix any misspelled technical terms. The correct spellings are: Verus, tokio, cpal. If you see similar-sounding words that should be these terms, replace them. Return only the updated transcript with no commentary."
    );
    request.auto_translate = true;
    request.custom_instructions = Some("Short.".to_string());
    assert_eq!(
        request.system_prompt().unwrap(),
        "You are assisting with high quality speech transcription cleanup. Fix any misspelled technical terms. The correct spellings are: Verus, tokio, cpal. If you see similar-sounding words that should be these terms, replace them. Translate the transcript into English, keeping the original intent and tone. Follow the user's additional instructions: Short. Return only the updated transcript with no commentary."
    );
}

#[test]
fn refinement_plans() {
    let mut request = job();
    assert!(matches!(plan_refinement("  ", &request), RefinementPlan::Empty));
    assert!(matches!(plan_refinement("hi", &request), RefinementPlan::Unchanged));
    request.auto_translate = true;
    match plan_refinement("  hello there \n", &request) {
        RefinementPlan::Request { system_prompt, user_text } => {
            assert_eq!(user_text, "hello there");
            assert!(system_prompt.starts_with("You are assisting"));
        }
        _ => panic!("expected a request"),
    }
    request.api_key = " ".to_string();
    assert!(matches!(plan_refinement("hi", &request), RefinementPlan::MissingKey));
    assert!(matches!(plan_refinement("", &request), RefinementPlan::Empty));
}

#[test]
fn endpoint_urls() {
    assert_eq!(
        endpoint_url("https://api.openai.com", "/v1/audio/transcriptions"),
        "https://api.openai.com/v1/audio/transcriptions"
    );
    assert_eq!(
        endpoint_url("https://api.groq.com/openai///", "/v1/chat/completions"),
        "https://api.groq.com/openai/v1/chat/completions"
    );
    assert_eq!(endpoint_url("", "/x"), "/x");
    assert_eq!(endpoint_url("//", "/x"), "/x");
}

#[test]
fn first_choice_is_trimmed() {
    assert_eq!(first_choice(&vec![]), None);
    assert_eq!(
        first_choice(&vec!["  one \n".to_string(), "two".to_string()]),
        Some("one".to_string())
    );
}

#[test]
fn transcription_request_holds_its_fields() {
    let request = TranscriptionRequest {
        api_key: "k".to_string(),
        model: "m".to_string(),
        audio_wav: vec![1, 2, 3],
    };
    let copy = request.clone();
    assert_eq!(copy.api_key, "k");
    assert_eq!(copy.model, "m");
    assert_eq!(copy.audio_wav, vec![1, 2, 3]);
}

#[test]
fn transcription_plans() {
    let mut settings = AppSettings::default();
    assert!(matches!(
        plan_transcription(&settings),
        TranscriptionPlan::MissingKey(TranscriptionProvider::OpenAI)
    ));
    settings.api_key = " sk-1 ".to_string();
    match plan_transcription(&settings) {
        TranscriptionPlan::Transcribe { provider, api_key, model } => {
            assert_eq!(provider, TranscriptionProvider::OpenAI);
            assert_eq!(api_key, "sk-1");
            assert_eq!(model, "gpt-4o-transcribe");
        }
        _ => panic!("expected a transcription"),
    }
    settings.provider = TranscriptionProvider::Groq;
    assert!(matches!(
        plan_transcription(&settings),
        TranscriptionPlan::MissingKey(TranscriptionProvider::Groq)
    ));
    settings.provider = TranscriptionProvider::ElevenLabs;
    settings.elevenlabs_api_key = "el".to_string();
    assert!(matches!(
        plan_transcription(&settings),
        TranscriptionPlan::Transcribe { provider: TranscriptionProvider::ElevenLabs, .. }
    ));
    settings.provider = TranscriptionProvider::Mock;
    assert!(matches!(plan_transcription(&settings), TranscriptionPlan::Mock));
    assert_eq!(MOCK_TRANSCRIPT, "Mock transcription result for E2E testing");
    assert_eq!(MOCK_DELAY_MS, 500);
    assert_eq!(
        missing_transcription_key_message(TranscriptionProvider::ElevenLabs),
        "ElevenLabs API key is required before starting a transcription"
    );
    assert_eq!(
        missing_refinement_key_message(LLMProvider::Groq),
        "Groq API key is required for translation or custom instructions"
    );
}

#[test]
fn post_processing_plans() {
    let mut settings = AppSettings::default();
    settings.api_key = "sk".to_string();
    assert!(matches!(
        plan_post_processing(&settings, "text"),
        PostProcessingPlan::Done
    ));
    settings.auto_translate = true;
    assert!(matches!(
        plan_post_processing(&settings, "  "),
        PostProcessingPlan::Done
    ));
    settings.use_custom_instructions = true;
    settings.custom_instructions = "  be kind ".to_string();
    settings.target_language = "French".to_string();
    match plan_post_processing(&settings, "text") {
        PostProcessingPlan::Refine { provider, request } => {
            assert_eq!(provider, LLMProvider::OpenAI);
            assert_eq!(request.api_key, "sk");
            assert_eq!(request.model, "gpt-4o-transcribe");
            assert!(request.auto_translate);
            assert_eq!(request.target_language, "French");
            assert_eq!(request.custom_instructions, Some("be kind".to_string()));
            assert!(request.vocabulary.is_empty());
        }
        _ => panic!("expected a refinement"),
    }
    settings.use_custom_instructions = false;
    match plan_post_processing(&settings, "text") {
        PostProcessingPlan::Refine { request, .. } => {
            assert_eq!(request.custom_instructions, None)
        }
        _ => panic!("expected a refinement"),
    }
    settings.llm_provider = LLMProvider::Groq;
    assert!(matches!(
        plan_post_processing(&settings, "text"),
        PostProcessingPlan::MissingKey(LLMProvider::Groq)
    ));
}

#[test]
fn deliveries() {
    let mut settings = AppSettings::default();
    let delivery = plan_upload_delivery(&settings, "  hi  ");
    assert_eq!(delivery.text, "hi");
    assert!(delivery.emit_partial && delivery.copy_to_clipboard && delivery.simulate_typing);
    let delivery = plan_upload_delivery(&settings, "   ");
    assert_eq!(delivery.text, "");
    assert!(!delivery.emit_partial && delivery.copy_to_clipboard && !delivery.simulate_typing);
    let delivery = plan_stream_delivery(&settings, "   ");
    assert!(!delivery.emit_partial && !delivery.copy_to_clipboard && !delivery.simulate_typing);
    settings.simulate_typing = false;
    settings.use_streaming = false;
    let delivery = plan_upload_delivery(&settings, "x");
    assert!(!delivery.emit_partial && delivery.copy_to_clipboard && !delivery.simulate_typing);
    let delivery = plan_stream_delivery(&settings, " x ");
    assert_eq!(delivery.text, "x");
    assert!(!delivery.emit_partial && delivery.copy_to_clipboard && !delivery.simulate_typing);
}

#[test]
fn groq_models() {
    assert_eq!(groq_transcription_model("groq/whisper-large-v3"), "whisper-large-v3");
    assert_eq!(groq_transcription_model("gpt-4o-transcribe"), "whisper-large-v3-turbo");
    assert_eq!(groq_transcription_model("groq/"), "");
    assert_eq!(groq_transcription_model("groq"), "whisper-large-v3-turbo");
    assert_eq!(groq_transcription_model(""), "whisper-large-v3-turbo");
}
