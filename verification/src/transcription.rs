//! The record-and-upload path: which service is asked with which key, what
//! is refined afterwards, and what becomes of the result.

use vstd::prelude::*;

use crate::openai::{RefinementRequest, RefinementView};
use crate::settings::{AppSettings, LLMProvider, SettingsView, TranscriptionProvider};
use crate::text::{
    chars_of, is_blank, is_blank_str, matches_at, push_str, slice_chars, starts_with, string_of,
    trim, trimmed,
};

verus! {

/// The answer of the mock provider.
pub const MOCK_TRANSCRIPT: &'static str = "Mock transcription result for E2E testing";

/// Milliseconds the mock provider takes to answer.
pub const MOCK_DELAY_MS: u64 = 500;

/// What a transcription comes to before anything is sent.
pub enum TranscriptionPlan {
    /// Answer with `MOCK_TRANSCRIPT` after `MOCK_DELAY_MS`.
    Mock,
    /// The provider's API key is missing.
    MissingKey(TranscriptionProvider),
    /// Ask the provider with this key and model.
    Transcribe { provider: TranscriptionProvider, api_key: String, model: String },
}

/// A `TranscriptionPlan` as plain values.
pub enum TranscriptionPlanView {
    Mock,
    MissingKey(TranscriptionProvider),
    Transcribe { provider: TranscriptionProvider, api_key: Seq<char>, model: Seq<char> },
}

impl View for TranscriptionPlan {
    type V = TranscriptionPlanView;

    open spec fn view(&self) -> TranscriptionPlanView {
        match self {
            TranscriptionPlan::Mock => TranscriptionPlanView::Mock,
            TranscriptionPlan::MissingKey(p) => TranscriptionPlanView::MissingKey(*p),
            TranscriptionPlan::Transcribe {
                provider,
                api_key,
                model,
            } => TranscriptionPlanView::Transcribe {
                provider: *provider,
                api_key: api_key@,
                model: model@,
            },
        }
    }
}

/// The API key that the settings hold for a transcription provider.
pub open spec fn transcription_key(settings: SettingsView) -> Seq<char> {
    match settings.provider {
        TranscriptionProvider::OpenAI => trimmed(settings.api_key),
        TranscriptionProvider::Groq => trimmed(settings.groq_api_key),
        TranscriptionProvider::ElevenLabs => trimmed(settings.elevenlabs_api_key),
        TranscriptionProvider::Mock => Seq::empty(),
    }
}

/// The API key that the settings hold for the language model.
pub open spec fn refinement_key(settings: SettingsView) -> Seq<char> {
    match settings.llm_provider {
        LLMProvider::OpenAI => trimmed(settings.api_key),
        LLMProvider::Groq => trimmed(settings.groq_api_key),
    }
}

pub open spec fn transcription_plan(settings: SettingsView) -> TranscriptionPlanView {
    if settings.provider == TranscriptionProvider::Mock {
        TranscriptionPlanView::Mock
    } else if transcription_key(settings).len() == 0 {
        TranscriptionPlanView::MissingKey(settings.provider)
    } else {
        TranscriptionPlanView::Transcribe {
            provider: settings.provider,
            api_key: transcription_key(settings),
            model: settings.model,
        }
    }
}

/// Decides how the recording is transcribed.
pub fn plan_transcription(settings: &AppSettings) -> (plan: TranscriptionPlan)
    ensures
        plan@ == transcription_plan(settings@),
{
    let api_key = match settings.provider {
        TranscriptionProvider::Mock => {
            return TranscriptionPlan::Mock;
        },
        TranscriptionProvider::OpenAI => trim(settings.api_key.as_str()),
        TranscriptionProvider::Groq => trim(settings.groq_api_key.as_str()),
        TranscriptionProvider::ElevenLabs => trim(settings.elevenlabs_api_key.as_str()),
    };
    if api_key.as_str().is_empty() {
        return TranscriptionPlan::MissingKey(settings.provider);
    }
    TranscriptionPlan::Transcribe {
        provider: settings.provider,
        api_key,
        model: settings.model.clone(),
    }
}

/// The error for a missing transcription key.
pub open spec fn missing_transcription_key_text(provider: TranscriptionProvider) -> Seq<char> {
    provider.name() + " API key is required before starting a transcription"@
}

pub fn missing_transcription_key_message(provider: TranscriptionProvider) -> (message: String)
    ensures
        message@ == missing_transcription_key_text(provider),
{
    let mut out: Vec<char> = Vec::new();
    push_str(&mut out, provider.display_name());
    push_str(&mut out, " API key is required before starting a transcription");
    string_of(&out)
}

/// The error for a missing refinement key.
pub open spec fn missing_refinement_key_text(provider: LLMProvider) -> Seq<char> {
    provider.name() + " API key is required for translation or custom instructions"@
}

pub fn missing_refinement_key_message(provider: LLMProvider) -> (message: String)
    ensures
        message@ == missing_refinement_key_text(provider),
{
    let mut out: Vec<char> = Vec::new();
    push_str(&mut out, provider.display_name());
    push_str(&mut out, " API key is required for translation or custom instructions");
    string_of(&out)
}

/// What happens to a transcript before it is delivered.
pub enum PostProcessingPlan {
    /// Nothing: the transcript is delivered as it is.
    Done,
    /// The language model's API key is missing.
    MissingKey(LLMProvider),
    /// Ask the language model.
    Refine { provider: LLMProvider, request: RefinementRequest },
}

/// A `PostProcessingPlan` as plain values.
pub enum PostProcessingPlanView {
    Done,
    MissingKey(LLMProvider),
    Refine { provider: LLMProvider, request: RefinementView },
}

impl View for PostProcessingPlan {
    type V = PostProcessingPlanView;

    open spec fn view(&self) -> PostProcessingPlanView {
        match self {
            PostProcessingPlan::Done => PostProcessingPlanView::Done,
            PostProcessingPlan::MissingKey(p) => PostProcessingPlanView::MissingKey(*p),
            PostProcessingPlan::Refine { provider, request } => PostProcessingPlanView::Refine {
                provider: *provider,
                request: request@,
            },
        }
    }
}

/// The request that the settings make of the language model.
pub open spec fn refinement_request(settings: SettingsView) -> RefinementView {
    RefinementView {
        api_key: refinement_key(settings),
        model: settings.model,
        auto_translate: settings.auto_translate,
        target_language: settings.target_language,
        custom_instructions: if settings.use_custom_instructions && !is_blank(
            settings.custom_instructions,
        ) {
            Some(trimmed(settings.custom_instructions))
        } else {
            None
        },
        vocabulary: Seq::empty(),
    }
}

/// A blank transcript, or settings that ask for no language model, end the
/// work; otherwise the model is asked, if its key is there.
pub open spec fn post_processing_plan(
    settings: SettingsView,
    text: Seq<char>,
) -> PostProcessingPlanView {
    if is_blank(text) || !settings.requires_llm() {
        PostProcessingPlanView::Done
    } else if refinement_key(settings).len() == 0 {
        PostProcessingPlanView::MissingKey(settings.llm_provider)
    } else {
        PostProcessingPlanView::Refine {
            provider: settings.llm_provider,
            request: refinement_request(settings),
        }
    }
}

/// Decides what happens to a transcript before it is delivered.
pub fn plan_post_processing(settings: &AppSettings, text: &str) -> (plan: PostProcessingPlan)
    ensures
        plan@ == post_processing_plan(settings@, text@),
{
    if is_blank_str(text) || !settings.requires_llm() {
        return PostProcessingPlan::Done;
    }
    let api_key = match settings.llm_provider {
        LLMProvider::OpenAI => trim(settings.api_key.as_str()),
        LLMProvider::Groq => trim(settings.groq_api_key.as_str()),
    };
    if api_key.as_str().is_empty() {
        return PostProcessingPlan::MissingKey(settings.llm_provider);
    }
    let custom_instructions = if settings.use_custom_instructions {
        let instructions = trim(settings.custom_instructions.as_str());
        if instructions.as_str().is_empty() {
            None
        } else {
            Some(instructions)
        }
    } else {
        None
    };
    let request = RefinementRequest {
        api_key,
        model: settings.model.clone(),
        auto_translate: settings.auto_translate,
        target_language: settings.target_language.clone(),
        custom_instructions,
        vocabulary: Vec::new(),
    };
    assert(request@.vocabulary =~= Seq::<Seq<char>>::empty());
    PostProcessingPlan::Refine { provider: settings.llm_provider, request }
}

/// What is done with a finished transcript.
pub struct Delivery {
    /// The transcript without surrounding white space.
    pub text: String,
    /// Emit the text as a partial result first.
    pub emit_partial: bool,
    /// Put the text on the clipboard.
    pub copy_to_clipboard: bool,
    /// Type the text into the focused window.
    pub simulate_typing: bool,
}

/// A `Delivery` as plain values.
pub struct DeliveryView {
    pub text: Seq<char>,
    pub emit_partial: bool,
    pub copy_to_clipboard: bool,
    pub simulate_typing: bool,
}

impl View for Delivery {
    type V = DeliveryView;

    open spec fn view(&self) -> DeliveryView {
        DeliveryView {
            text: self.text@,
            emit_partial: self.emit_partial,
            copy_to_clipboard: self.copy_to_clipboard,
            simulate_typing: self.simulate_typing,
        }
    }
}

/// The delivery of an uploaded recording's transcript: the clipboard gets
/// it even where it is empty, the partial event and the keyboard only
/// where there is text.
pub open spec fn upload_delivery(settings: SettingsView, text: Seq<char>) -> DeliveryView {
    let clean = trimmed(text);
    DeliveryView {
        text: clean,
        emit_partial: settings.use_streaming && clean.len() > 0,
        copy_to_clipboard: settings.copy_to_clipboard,
        simulate_typing: settings.simulate_typing && clean.len() > 0,
    }
}

pub fn plan_upload_delivery(settings: &AppSettings, text: &str) -> (delivery: Delivery)
    ensures
        delivery@ == upload_delivery(settings@, text@),
{
    let clean = trim(text);
    let has_text = !clean.as_str().is_empty();
    Delivery {
        text: clean,
        emit_partial: settings.use_streaming && has_text,
        copy_to_clipboard: settings.copy_to_clipboard,
        simulate_typing: settings.simulate_typing && has_text,
    }
}

/// The delivery of a streamed transcript: clipboard and keyboard both get
/// it only where there is text, and no partial event is emitted.
pub open spec fn stream_delivery(settings: SettingsView, text: Seq<char>) -> DeliveryView {
    let clean = trimmed(text);
    DeliveryView {
        text: clean,
        emit_partial: false,
        copy_to_clipboard: settings.copy_to_clipboard && clean.len() > 0,
        simulate_typing: settings.simulate_typing && clean.len() > 0,
    }
}

pub fn plan_stream_delivery(settings: &AppSettings, text: &str) -> (delivery: Delivery)
    ensures
        delivery@ == stream_delivery(settings@, text@),
{
    let clean = trim(text);
    let has_text = !clean.as_str().is_empty();
    Delivery {
        text: clean,
        emit_partial: false,
        copy_to_clipboard: settings.copy_to_clipboard && has_text,
        simulate_typing: settings.simulate_typing && has_text,
    }
}

/// The model that Groq is asked to transcribe with: the one named after
/// the `groq/` prefix, or the default.
pub open spec fn groq_model(model: Seq<char>) -> Seq<char> {
    if starts_with(model, "groq/"@) {
        model.skip("groq/"@.len() as int)
    } else {
        "whisper-large-v3-turbo"@
    }
}

pub fn groq_transcription_model(model: &str) -> (chosen: String)
    ensures
        chosen@ == groq_model(model@),
{
    let chars = chars_of(model);
    let prefix = chars_of("groq/");
    if matches_at(&chars, &prefix, 0) {
        let rest = slice_chars(&chars, prefix.len(), chars.len());
        assert(chars@.subrange(prefix@.len() as int, chars@.len() as int) =~= chars@.skip(
            prefix@.len() as int,
        ));
        string_of(&rest)
    } else {
        "whisper-large-v3-turbo".to_owned()
    }
}

} // verus!
