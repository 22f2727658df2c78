//! Application settings: their defaults, their normal form, and the rules a
//! hotkey and the API keys have to meet.

use vstd::prelude::*;

use crate::text::{
    chars_are, chars_of, is_blank, is_blank_str, piece_views, push_str, replace_chars, replaced,
    split_chars, split_on, string_of, trim, trim_chars, trimmed,
};

verus! {

pub const DEFAULT_HOTKEY: &'static str = "Ctrl+Shift+Space";

pub const CONFIG_FILE: &'static str = "settings.json";

pub const DEFAULT_MODEL: &'static str = "gpt-4o-transcribe";

pub const DEFAULT_TARGET_LANGUAGE: &'static str = "English";

/// Who turns audio into text.
#[derive(Debug, Clone, Copy, PartialEq, Eq, Default, Structural)]
pub enum TranscriptionProvider {
    #[default]
    OpenAI,
    Groq,
    ElevenLabs,
    /// Answers with a fixed text and needs no API key.
    Mock,
}

/// Who refines the text.
#[derive(Debug, Clone, Copy, PartialEq, Eq, Default, Structural)]
pub enum LLMProvider {
    #[default]
    OpenAI,
    Groq,
}

impl TranscriptionProvider {
    pub open spec fn name(self) -> Seq<char> {
        match self {
            TranscriptionProvider::OpenAI => "OpenAI"@,
            TranscriptionProvider::Groq => "Groq"@,
            TranscriptionProvider::ElevenLabs => "ElevenLabs"@,
            TranscriptionProvider::Mock => "Mock (Testing)"@,
        }
    }

    pub fn display_name(&self) -> (name: &'static str)
        ensures
            name@ == self.name(),
    {
        match self {
            TranscriptionProvider::OpenAI => "OpenAI",
            TranscriptionProvider::Groq => "Groq",
            TranscriptionProvider::ElevenLabs => "ElevenLabs",
            TranscriptionProvider::Mock => "Mock (Testing)",
        }
    }

    pub fn is_mock(&self) -> (mock: bool)
        ensures
            mock == (*self == TranscriptionProvider::Mock),
    {
        match self {
            TranscriptionProvider::Mock => true,
            _ => false,
        }
    }
}

impl LLMProvider {
    pub open spec fn name(self) -> Seq<char> {
        match self {
            LLMProvider::OpenAI => "OpenAI"@,
            LLMProvider::Groq => "Groq"@,
        }
    }

    pub fn display_name(&self) -> (name: &'static str)
        ensures
            name@ == self.name(),
    {
        match self {
            LLMProvider::OpenAI => "OpenAI",
            LLMProvider::Groq => "Groq",
        }
    }
}

/// The hotkey in normal form: trimmed, double spaces made single, and the
/// default where nothing is left.
pub open spec fn normal_hotkey(hotkey: Seq<char>) -> Seq<char> {
    let candidate = trimmed(hotkey);
    if candidate.len() == 0 {
        DEFAULT_HOTKEY@
    } else {
        replaced(candidate, "  "@, " "@)
    }
}

/// The keys that have a name of their own.
pub open spec fn is_named_key(key: Seq<char>) -> bool {
    key == "Space"@ || key == "Escape"@ || key == "Enter"@ || key == "Tab"@ || key == "Backspace"@
        || key == "Delete"@ || key == "ArrowUp"@ || key == "ArrowDown"@ || key == "ArrowLeft"@
        || key == "ArrowRight"@ || key == "CapsLock"@ || key == "PageUp"@ || key == "PageDown"@
        || key == "Home"@ || key == "End"@ || key == "Insert"@ || key == "Pause"@ || key
        == "PrintScreen"@ || key == "ScrollLock"@ || key == "ContextMenu"@ || key == "Backquote"@
        || key == "Minus"@ || key == "Equal"@ || key == "BracketLeft"@ || key == "BracketRight"@
        || key == "Backslash"@ || key == "Semicolon"@ || key == "Quote"@ || key == "Comma"@ || key
        == "Period"@ || key == "Slash"@
}

/// `F1` up to `F24`.
pub open spec fn is_function_key(key: Seq<char>) -> bool {
    &&& key.len() >= 2
    &&& key[0] == 'F'
    &&& {
        ||| key.len() == 2 && '1' <= key[1] <= '9'
        ||| key.len() == 3 && key[1] == '1' && '0' <= key[2] <= '9'
        ||| key.len() == 3 && key[1] == '2' && '0' <= key[2] <= '4'
    }
}

/// One digit or one upper-case letter.
pub open spec fn is_character_key(key: Seq<char>) -> bool {
    key.len() == 1 && ('0' <= key[0] <= '9' || 'A' <= key[0] <= 'Z')
}

/// The keys a hotkey may end in.
pub open spec fn is_main_key(key: Seq<char>) -> bool {
    is_named_key(key) || is_function_key(key) || is_character_key(key)
}

pub open spec fn is_modifier(key: Seq<char>) -> bool {
    key == "Ctrl"@ || key == "Shift"@ || key == "Alt"@ || key == "Win"@
}

/// The rule for a hotkey in normal form: pieces joined by `+`, each read
/// without surrounding white space; the last is a key, all before it are
/// modifiers, and without a modifier the key has to begin with `F`.
pub open spec fn hotkey_rule(hotkey: Seq<char>) -> bool {
    let pieces = split_on(hotkey, '+');
    let key = trimmed(pieces.last());
    &&& is_main_key(key)
    &&& forall|i: int| 0 <= i < pieces.len() - 1 ==> is_modifier(trimmed(#[trigger] pieces[i]))
    &&& (pieces.len() > 1 || (key.len() > 0 && key[0] == 'F'))
}

fn check_named_key(key: &Vec<char>) -> (named: bool)
    ensures
        named == is_named_key(key@),
{
    chars_are(key, "Space") || chars_are(key, "Escape") || chars_are(key, "Enter") || chars_are(
        key,
        "Tab",
    ) || chars_are(key, "Backspace") || chars_are(key, "Delete") || chars_are(key, "ArrowUp")
        || chars_are(key, "ArrowDown") || chars_are(key, "ArrowLeft") || chars_are(
        key,
        "ArrowRight",
    ) || chars_are(key, "CapsLock") || chars_are(key, "PageUp") || chars_are(key, "PageDown")
        || chars_are(key, "Home") || chars_are(key, "End") || chars_are(key, "Insert")
        || chars_are(key, "Pause") || chars_are(key, "PrintScreen") || chars_are(
        key,
        "ScrollLock",
    ) || chars_are(key, "ContextMenu") || chars_are(key, "Backquote") || chars_are(key, "Minus")
        || chars_are(key, "Equal") || chars_are(key, "BracketLeft") || chars_are(
        key,
        "BracketRight",
    ) || chars_are(key, "Backslash") || chars_are(key, "Semicolon") || chars_are(key, "Quote")
        || chars_are(key, "Comma") || chars_are(key, "Period") || chars_are(key, "Slash")
}

fn check_function_key(key: &Vec<char>) -> (function: bool)
    ensures
        function == is_function_key(key@),
{
    if key.len() < 2 || key[0] != 'F' {
        return false;
    }
    if key.len() == 2 {
        '1' <= key[1] && key[1] <= '9'
    } else if key.len() == 3 {
        (key[1] == '1' && '0' <= key[2] && key[2] <= '9') || (key[1] == '2' && '0' <= key[2]
            && key[2] <= '4')
    } else {
        false
    }
}

fn check_main_key(key: &Vec<char>) -> (main: bool)
    ensures
        main == is_main_key(key@),
{
    if check_named_key(key) || check_function_key(key) {
        return true;
    }
    key.len() == 1 && (('0' <= key[0] && key[0] <= '9') || ('A' <= key[0] && key[0] <= 'Z'))
}

fn check_modifier(key: &Vec<char>) -> (modifier: bool)
    ensures
        modifier == is_modifier(key@),
{
    chars_are(key, "Ctrl") || chars_are(key, "Shift") || chars_are(key, "Alt") || chars_are(
        key,
        "Win",
    )
}

/// Checks a hotkey in normal form against the rule.
pub fn check_hotkey(hotkey: &str) -> (valid: bool)
    ensures
        valid == hotkey_rule(hotkey@),
{
    let chars = chars_of(hotkey);
    let pieces = split_chars(&chars, '+');
    let last: usize = pieces.len() - 1;
    assert(piece_views(pieces@)[last as int] == pieces@[last as int]@);
    let key = trim_chars(&pieces[last]);
    if !check_main_key(&key) {
        return false;
    }
    let mut i: usize = 0;
    while i < last
        invariant
            i <= last,
            last == pieces@.len() - 1,
            piece_views(pieces@) == split_on(hotkey@, '+'),
            forall|j: int|
                0 <= j < i ==> is_modifier(trimmed(#[trigger] split_on(hotkey@, '+')[j])),
        decreases last - i,
    {
        assert(piece_views(pieces@)[i as int] == pieces@[i as int]@);
        let modifier = trim_chars(&pieces[i]);
        if !check_modifier(&modifier) {
            return false;
        }
        i += 1;
    }
    last > 0 || (key.len() > 0 && key[0] == 'F')
}

/// Everything the user can set.
#[derive(Debug, Clone)]
pub struct AppSettings {
    pub provider: TranscriptionProvider,
    pub llm_provider: LLMProvider,
    pub api_key: String,
    pub groq_api_key: String,
    pub elevenlabs_api_key: String,
    pub model: String,
    pub hotkey: String,
    pub translate_hotkey: String,
    pub toggle_translate_hotkey: String,
    pub simulate_typing: bool,
    pub copy_to_clipboard: bool,
    pub auto_start: bool,
    pub auto_update: bool,
    pub use_streaming: bool,
    pub auto_translate: bool,
    pub target_language: String,
    pub use_custom_instructions: bool,
    pub custom_instructions: String,
}

/// The settings as plain values.
pub struct SettingsView {
    pub provider: TranscriptionProvider,
    pub llm_provider: LLMProvider,
    pub api_key: Seq<char>,
    pub groq_api_key: Seq<char>,
    pub elevenlabs_api_key: Seq<char>,
    pub model: Seq<char>,
    pub hotkey: Seq<char>,
    pub translate_hotkey: Seq<char>,
    pub toggle_translate_hotkey: Seq<char>,
    pub simulate_typing: bool,
    pub copy_to_clipboard: bool,
    pub auto_start: bool,
    pub auto_update: bool,
    pub use_streaming: bool,
    pub auto_translate: bool,
    pub target_language: Seq<char>,
    pub use_custom_instructions: bool,
    pub custom_instructions: Seq<char>,
}

impl View for AppSettings {
    type V = SettingsView;

    open spec fn view(&self) -> SettingsView {
        SettingsView {
            provider: self.provider,
            llm_provider: self.llm_provider,
            api_key: self.api_key@,
            groq_api_key: self.groq_api_key@,
            elevenlabs_api_key: self.elevenlabs_api_key@,
            model: self.model@,
            hotkey: self.hotkey@,
            translate_hotkey: self.translate_hotkey@,
            toggle_translate_hotkey: self.toggle_translate_hotkey@,
            simulate_typing: self.simulate_typing,
            copy_to_clipboard: self.copy_to_clipboard,
            auto_start: self.auto_start,
            auto_update: self.auto_update,
            use_streaming: self.use_streaming,
            auto_translate: self.auto_translate,
            target_language: self.target_language@,
            use_custom_instructions: self.use_custom_instructions,
            custom_instructions: self.custom_instructions@,
        }
    }
}

/// The text itself without surrounding white space, or the fallback where
/// nothing is left.
pub open spec fn trimmed_or(text: Seq<char>, fallback: Seq<char>) -> Seq<char> {
    if is_blank(text) {
        fallback
    } else {
        trimmed(text)
    }
}

impl SettingsView {
    pub open spec fn defaults() -> SettingsView {
        SettingsView {
            provider: TranscriptionProvider::OpenAI,
            llm_provider: LLMProvider::OpenAI,
            api_key: Seq::empty(),
            groq_api_key: Seq::empty(),
            elevenlabs_api_key: Seq::empty(),
            model: DEFAULT_MODEL@,
            hotkey: DEFAULT_HOTKEY@,
            translate_hotkey: Seq::empty(),
            toggle_translate_hotkey: Seq::empty(),
            simulate_typing: true,
            copy_to_clipboard: true,
            auto_start: false,
            auto_update: true,
            use_streaming: true,
            auto_translate: false,
            target_language: DEFAULT_TARGET_LANGUAGE@,
            use_custom_instructions: false,
            custom_instructions: Seq::empty(),
        }
    }

    /// The normal form: texts trimmed, defaults where the model, the hotkey
    /// or the target language is blank, and custom instructions in use only
    /// where there are any. The ElevenLabs key is kept as it is.
    pub open spec fn normalized(self) -> SettingsView {
        SettingsView {
            api_key: trimmed(self.api_key),
            groq_api_key: trimmed(self.groq_api_key),
            model: trimmed_or(self.model, DEFAULT_MODEL@),
            hotkey: normal_hotkey(self.hotkey),
            translate_hotkey: trimmed(self.translate_hotkey),
            toggle_translate_hotkey: trimmed(self.toggle_translate_hotkey),
            target_language: trimmed_or(self.target_language, DEFAULT_TARGET_LANGUAGE@),
            custom_instructions: trimmed(self.custom_instructions),
            use_custom_instructions: self.use_custom_instructions && !is_blank(
                self.custom_instructions,
            ),
            ..self
        }
    }

    pub open spec fn valid_hotkey(self) -> bool {
        hotkey_rule(normal_hotkey(self.hotkey))
    }

    /// Whether the text goes through a language model after transcription.
    pub open spec fn requires_llm(self) -> bool {
        self.auto_translate || (self.use_custom_instructions && !is_blank(
            self.custom_instructions,
        ))
    }

    /// The provider whose API key a transcription would miss, if any: the
    /// transcription provider's first, then the language model's.
    pub open spec fn missing_api_key(self) -> Option<Seq<char>> {
        if self.provider == TranscriptionProvider::OpenAI && is_blank(self.api_key) {
            Some("OpenAI"@)
        } else if self.provider == TranscriptionProvider::Groq && is_blank(self.groq_api_key) {
            Some("Groq"@)
        } else if self.provider == TranscriptionProvider::ElevenLabs && is_blank(
            self.elevenlabs_api_key,
        ) {
            Some("ElevenLabs"@)
        } else if self.requires_llm() && self.llm_provider == LLMProvider::OpenAI && is_blank(
            self.api_key,
        ) {
            Some("OpenAI"@)
        } else if self.requires_llm() && self.llm_provider == LLMProvider::Groq && is_blank(
            self.groq_api_key,
        ) {
            Some("Groq"@)
        } else {
            None
        }
    }
}

impl Default for AppSettings {
    fn default() -> (settings: Self)
        ensures
            settings@ == SettingsView::defaults(),
    {
        AppSettings {
            provider: TranscriptionProvider::OpenAI,
            llm_provider: LLMProvider::OpenAI,
            api_key: String::new(),
            groq_api_key: String::new(),
            elevenlabs_api_key: String::new(),
            model: DEFAULT_MODEL.to_owned(),
            hotkey: DEFAULT_HOTKEY.to_owned(),
            translate_hotkey: String::new(),
            toggle_translate_hotkey: String::new(),
            simulate_typing: true,
            copy_to_clipboard: true,
            auto_start: false,
            auto_update: true,
            use_streaming: true,
            auto_translate: false,
            target_language: DEFAULT_TARGET_LANGUAGE.to_owned(),
            use_custom_instructions: false,
            custom_instructions: String::new(),
        }
    }
}

/// Why settings were turned down.
#[derive(Debug)]
pub enum SettingsValidationError {
    MissingHotkey,
    InvalidHotkey(String),
    MissingApiKey(&'static str),
}

/// A `SettingsValidationError` as plain values.
pub enum ValidationErrorView {
    MissingHotkey,
    InvalidHotkey(Seq<char>),
    MissingApiKey(Seq<char>),
}

impl View for SettingsValidationError {
    type V = ValidationErrorView;

    open spec fn view(&self) -> ValidationErrorView {
        match self {
            SettingsValidationError::MissingHotkey => ValidationErrorView::MissingHotkey,
            SettingsValidationError::InvalidHotkey(hotkey) => ValidationErrorView::InvalidHotkey(
                hotkey@,
            ),
            SettingsValidationError::MissingApiKey(provider) => ValidationErrorView::MissingApiKey(
                provider@,
            ),
        }
    }
}

impl ValidationErrorView {
    /// The sentence shown to the user.
    pub open spec fn text(self) -> Seq<char> {
        match self {
            ValidationErrorView::MissingHotkey => "A global hotkey must be set."@,
            ValidationErrorView::InvalidHotkey(hotkey) => "Global hotkey '"@ + hotkey
                + "' is not valid."@,
            ValidationErrorView::MissingApiKey(provider) => provider + " API key is required."@,
        }
    }
}

impl SettingsValidationError {
    /// The sentence shown to the user.
    pub fn message(&self) -> (m: String)
        ensures
            m@ == self@.text(),
    {
        let mut out: Vec<char> = Vec::new();
        match self {
            SettingsValidationError::MissingHotkey => {
                push_str(&mut out, "A global hotkey must be set.");
            },
            SettingsValidationError::InvalidHotkey(hotkey) => {
                push_str(&mut out, "Global hotkey '");
                push_str(&mut out, hotkey.as_str());
                push_str(&mut out, "' is not valid.");
            },
            SettingsValidationError::MissingApiKey(provider) => {
                push_str(&mut out, provider);
                push_str(&mut out, " API key is required.");
            },
        }
        assert(out@ =~= self@.text());
        string_of(&out)
    }
}

/// The result of a validation as plain values.
pub open spec fn validation_view(result: Result<(), SettingsValidationError>) -> Result<
    (),
    ValidationErrorView,
> {
    match result {
        Ok(()) => Ok(()),
        Err(e) => Err(e@),
    }
}

/// A hotkey in normal form is never empty.
pub proof fn lemma_normal_hotkey_not_empty(hotkey: Seq<char>)
    ensures
        normal_hotkey(hotkey).len() > 0,
{
    reveal_strlit("Ctrl+Shift+Space");
    reveal_strlit("  ");
    reveal_strlit(" ");
    let candidate = trimmed(hotkey);
    if candidate.len() > 0 {
        assert(replaced(candidate, "  "@, " "@).len() > 0);
    }
}

fn trimmed_or_default(text: &str, fallback: &str) -> (out: String)
    ensures
        out@ == trimmed_or(text@, fallback@),
{
    let t = trim(text);
    if t.as_str().is_empty() {
        fallback.to_owned()
    } else {
        t
    }
}

impl AppSettings {
    /// The hotkey in normal form.
    pub fn normalized_hotkey(&self) -> (hotkey: String)
        ensures
            hotkey@ == normal_hotkey(self.hotkey@),
    {
        let chars = chars_of(self.hotkey.as_str());
        let candidate = trim_chars(&chars);
        if candidate.len() == 0 {
            DEFAULT_HOTKEY.to_owned()
        } else {
            let from = chars_of("  ");
            let to = chars_of(" ");
            proof {
                reveal_strlit("  ");
            }
            let r = replace_chars(&candidate, &from, &to);
            string_of(&r)
        }
    }

    /// The settings in normal form.
    pub fn normalized(self) -> (settings: Self)
        ensures
            settings@ == self@.normalized(),
    {
        let hotkey = self.normalized_hotkey();
        let custom_instructions = trim(self.custom_instructions.as_str());
        let use_custom_instructions = self.use_custom_instructions
            && !custom_instructions.as_str().is_empty();
        AppSettings {
            provider: self.provider,
            llm_provider: self.llm_provider,
            api_key: trim(self.api_key.as_str()),
            groq_api_key: trim(self.groq_api_key.as_str()),
            elevenlabs_api_key: self.elevenlabs_api_key,
            model: trimmed_or_default(self.model.as_str(), DEFAULT_MODEL),
            hotkey,
            translate_hotkey: trim(self.translate_hotkey.as_str()),
            toggle_translate_hotkey: trim(self.toggle_translate_hotkey.as_str()),
            simulate_typing: self.simulate_typing,
            copy_to_clipboard: self.copy_to_clipboard,
            auto_start: self.auto_start,
            auto_update: self.auto_update,
            use_streaming: self.use_streaming,
            auto_translate: self.auto_translate,
            target_language: trimmed_or_default(
                self.target_language.as_str(),
                DEFAULT_TARGET_LANGUAGE,
            ),
            use_custom_instructions,
            custom_instructions,
        }
    }

    /// Whether the hotkey, in normal form, meets the rule.
    pub fn is_valid_hotkey(&self) -> (valid: bool)
        ensures
            valid == self@.valid_hotkey(),
    {
        let hotkey = self.normalized_hotkey();
        check_hotkey(hotkey.as_str())
    }

    pub fn requires_llm(&self) -> (required: bool)
        ensures
            required == self@.requires_llm(),
    {
        self.auto_translate || (self.use_custom_instructions && !is_blank_str(
            self.custom_instructions.as_str(),
        ))
    }

    /// Checks what has to hold before settings are saved: the hotkey. API
    /// keys are not asked for here.
    pub fn validate(&self) -> (result: Result<(), SettingsValidationError>)
        ensures
            validation_view(result) == if self@.valid_hotkey() {
                Ok::<(), ValidationErrorView>(())
            } else {
                Err::<(), ValidationErrorView>(
                    ValidationErrorView::InvalidHotkey(normal_hotkey(self.hotkey@)),
                )
            },
    {
        let hotkey = self.normalized_hotkey();
        proof {
            lemma_normal_hotkey_not_empty(self.hotkey@);
        }
        if hotkey.as_str().is_empty() {
            return Err(SettingsValidationError::MissingHotkey);
        }
        if !self.is_valid_hotkey() {
            return Err(SettingsValidationError::InvalidHotkey(hotkey));
        }
        Ok(())
    }

    /// Checks that the API keys a transcription needs are there.
    pub fn validate_for_transcription(&self) -> (result: Result<(), SettingsValidationError>)
        ensures
            validation_view(result) == match self@.missing_api_key() {
                Some(provider) => Err::<(), ValidationErrorView>(
                    ValidationErrorView::MissingApiKey(provider),
                ),
                None => Ok::<(), ValidationErrorView>(()),
            },
    {
        let no_openai_key = is_blank_str(self.api_key.as_str());
        let no_groq_key = is_blank_str(self.groq_api_key.as_str());
        match self.provider {
            TranscriptionProvider::Mock => {},
            TranscriptionProvider::OpenAI => {
                if no_openai_key {
                    return Err(SettingsValidationError::MissingApiKey("OpenAI"));
                }
            },
            TranscriptionProvider::Groq => {
                if no_groq_key {
                    return Err(SettingsValidationError::MissingApiKey("Groq"));
                }
            },
            TranscriptionProvider::ElevenLabs => {
                if is_blank_str(self.elevenlabs_api_key.as_str()) {
                    return Err(SettingsValidationError::MissingApiKey("ElevenLabs"));
                }
            },
        }
        if self.requires_llm() {
            match self.llm_provider {
                LLMProvider::OpenAI => {
                    if no_openai_key {
                        return Err(SettingsValidationError::MissingApiKey("OpenAI"));
                    }
                },
                LLMProvider::Groq => {
                    if no_groq_key {
                        return Err(SettingsValidationError::MissingApiKey("Groq"));
                    }
                },
            }
        }
        Ok(())
    }
}

} // verus!
