//! Requests to the transcription and refinement services, and the prompt
//! that tells the language model what to do with a transcript.

use vstd::prelude::*;

use crate::text::{
    chars_of, is_blank, is_blank_str, join_chars, joined_with, piece_views, push_chars, push_str,
    slice_chars, string_of, trim, trim_chars, trimmed,
};

verus! {

/// One recording to transcribe.
#[derive(Clone, Debug)]
pub struct TranscriptionRequest {
    pub api_key: String,
    pub model: String,
    pub audio_wav: Vec<u8>,
}

/// What the language model is asked to do with a transcript.
#[derive(Clone, Debug)]
pub struct RefinementRequest {
    pub api_key: String,
    pub model: String,
    pub auto_translate: bool,
    pub target_language: String,
    pub custom_instructions: Option<String>,
    pub vocabulary: Vec<String>,
}

/// A `RefinementRequest` as plain values.
pub struct RefinementView {
    pub api_key: Seq<char>,
    pub model: Seq<char>,
    pub auto_translate: bool,
    pub target_language: Seq<char>,
    pub custom_instructions: Option<Seq<char>>,
    pub vocabulary: Seq<Seq<char>>,
}

/// The views of a list of strings.
pub open spec fn string_views(strings: Seq<String>) -> Seq<Seq<char>> {
    strings.map_values(|s: String| s@)
}

impl View for RefinementRequest {
    type V = RefinementView;

    open spec fn view(&self) -> RefinementView {
        RefinementView {
            api_key: self.api_key@,
            model: self.model@,
            auto_translate: self.auto_translate,
            target_language: self.target_language@,
            custom_instructions: match self.custom_instructions {
                Some(s) => Some(s@),
                None => None,
            },
            vocabulary: string_views(self.vocabulary@),
        }
    }
}

pub open spec fn prompt_intro() -> Seq<char> {
    "You are assisting with high quality speech transcription cleanup. "@
}

pub open spec fn vocabulary_directive(terms: Seq<Seq<char>>) -> Seq<char> {
    "Fix any misspelled technical terms. The correct spellings are: "@ + joined_with(terms, ", "@)
        + ". If you see similar-sounding words that should be these terms, replace them."@
}

pub open spec fn translate_directive(language: Seq<char>) -> Seq<char> {
    "Translate the transcript into "@ + language + ", keeping the original intent and tone."@
}

pub open spec fn polish_directive() -> Seq<char> {
    "Polish the transcript and fix clear mistakes while keeping intent."@
}

pub open spec fn custom_directive(instructions: Seq<char>) -> Seq<char> {
    "Follow the user's additional instructions: "@ + trimmed(instructions)
}

pub open spec fn closing_directive() -> Seq<char> {
    "Return only the updated transcript with no commentary."@
}

impl RefinementView {
    pub open spec fn has_custom_instructions(self) -> bool {
        self.custom_instructions matches Some(s) && !is_blank(s)
    }

    pub open spec fn has_vocabulary(self) -> bool {
        self.vocabulary.len() > 0
    }

    pub open spec fn requires_refinement(self) -> bool {
        self.auto_translate || self.has_custom_instructions() || self.has_vocabulary()
    }

    /// The directives of the prompt, in order: the vocabulary first, then
    /// the translation, or a general polish where neither is asked for,
    /// then the user's own instructions, then the closing one.
    pub open spec fn directives(self) -> Seq<Seq<char>> {
        let vocabulary = if self.has_vocabulary() {
            seq![vocabulary_directive(self.vocabulary)]
        } else {
            Seq::empty()
        };
        let main = if self.auto_translate {
            seq![translate_directive(self.target_language)]
        } else if !self.has_vocabulary() {
            seq![polish_directive()]
        } else {
            Seq::empty()
        };
        let custom = if self.has_custom_instructions() {
            seq![custom_directive(self.custom_instructions->0)]
        } else {
            Seq::empty()
        };
        vocabulary + main + custom + seq![closing_directive()]
    }

    /// The system prompt, where there is anything to refine.
    pub open spec fn system_prompt(self) -> Option<Seq<char>> {
        if self.requires_refinement() {
            Some(prompt_intro() + joined_with(self.directives(), " "@))
        } else {
            None
        }
    }
}

/// The view of an optional string.
pub open spec fn optional_string(s: Option<String>) -> Option<Seq<char>> {
    match s {
        Some(s) => Some(s@),
        None => None,
    }
}

impl RefinementRequest {
    pub fn has_custom_instructions(&self) -> (has: bool)
        ensures
            has == self@.has_custom_instructions(),
    {
        match &self.custom_instructions {
            Some(s) => !is_blank_str(s.as_str()),
            None => false,
        }
    }

    pub fn has_vocabulary(&self) -> (has: bool)
        ensures
            has == self@.has_vocabulary(),
    {
        self.vocabulary.len() > 0
    }

    pub fn requires_refinement(&self) -> (required: bool)
        ensures
            required == self@.requires_refinement(),
    {
        self.auto_translate || self.has_custom_instructions() || self.has_vocabulary()
    }

    fn vocabulary_terms(&self) -> (terms: Vec<Vec<char>>)
        ensures
            piece_views(terms@) == self@.vocabulary,
    {
        let mut terms: Vec<Vec<char>> = Vec::new();
        let mut i: usize = 0;
        while i < self.vocabulary.len()
            invariant
                i <= self.vocabulary@.len(),
                terms@.len() == i,
                forall|j: int| 0 <= j < i ==> (#[trigger] terms@[j])@ == self.vocabulary@[j]@,
            decreases self.vocabulary@.len() - i,
        {
            terms.push(chars_of(self.vocabulary[i].as_str()));
            i += 1;
        }
        assert(piece_views(terms@) =~= self@.vocabulary);
        terms
    }

    /// The system prompt, where there is anything to refine.
    pub fn system_prompt(&self) -> (prompt: Option<String>)
        ensures
            optional_string(prompt) == self@.system_prompt(),
    {
        if !self.requires_refinement() {
            return None;
        }
        let mut directives: Vec<Vec<char>> = Vec::new();
        if self.has_vocabulary() {
            let terms = self.vocabulary_terms();
            let mut directive: Vec<char> = Vec::new();
            push_str(
                &mut directive,
                "Fix any misspelled technical terms. The correct spellings are: ",
            );
            let listed = join_chars(&terms, ", ");
            push_chars(&mut directive, &listed);
            push_str(
                &mut directive,
                ". If you see similar-sounding words that should be these terms, replace them.",
            );
            directives.push(directive);
        }
        if self.auto_translate {
            let mut directive: Vec<char> = Vec::new();
            push_str(&mut directive, "Translate the transcript into ");
            push_str(&mut directive, self.target_language.as_str());
            push_str(&mut directive, ", keeping the original intent and tone.");
            directives.push(directive);
        } else if !self.has_vocabulary() {
            directives.push(
                chars_of("Polish the transcript and fix clear mistakes while keeping intent."),
            );
        }
        match &self.custom_instructions {
            Some(instructions) => {
                let extra = trim_chars(&chars_of(instructions.as_str()));
                if extra.len() > 0 {
                    let mut directive: Vec<char> = Vec::new();
                    push_str(&mut directive, "Follow the user's additional instructions: ");
                    push_chars(&mut directive, &extra);
                    directives.push(directive);
                }
            },
            None => {},
        }
        directives.push(chars_of("Return only the updated transcript with no commentary."));
        assert(piece_views(directives@) =~= self@.directives());
        let mut prompt: Vec<char> = Vec::new();
        push_str(
            &mut prompt,
            "You are assisting with high quality speech transcription cleanup. ",
        );
        let body = join_chars(&directives, " ");
        push_chars(&mut prompt, &body);
        Some(string_of(&prompt))
    }
}

/// What a refinement comes to before anything is sent.
pub enum RefinementPlan {
    /// The transcript is blank: the result is the empty text.
    Empty,
    /// The API key is missing.
    MissingKey,
    /// Nothing is asked for: the transcript stays as it is.
    Unchanged,
    /// Ask the model with these two messages.
    Request { system_prompt: String, user_text: String },
}

/// A `RefinementPlan` as plain values.
pub enum RefinementPlanView {
    Empty,
    MissingKey,
    Unchanged,
    Request { system_prompt: Seq<char>, user_text: Seq<char> },
}

impl View for RefinementPlan {
    type V = RefinementPlanView;

    open spec fn view(&self) -> RefinementPlanView {
        match self {
            RefinementPlan::Empty => RefinementPlanView::Empty,
            RefinementPlan::MissingKey => RefinementPlanView::MissingKey,
            RefinementPlan::Unchanged => RefinementPlanView::Unchanged,
            RefinementPlan::Request { system_prompt, user_text } => RefinementPlanView::Request {
                system_prompt: system_prompt@,
                user_text: user_text@,
            },
        }
    }
}

/// The plan for refining `text`: a blank transcript needs no model, a
/// request needs a key, and the model sees the transcript trimmed.
pub open spec fn refinement_plan(text: Seq<char>, job: RefinementView) -> RefinementPlanView {
    if is_blank(text) {
        RefinementPlanView::Empty
    } else if is_blank(job.api_key) {
        RefinementPlanView::MissingKey
    } else {
        match job.system_prompt() {
            None => RefinementPlanView::Unchanged,
            Some(prompt) => RefinementPlanView::Request {
                system_prompt: prompt,
                user_text: trimmed(text),
            },
        }
    }
}

pub fn plan_refinement(text: &str, job: &RefinementRequest) -> (plan: RefinementPlan)
    ensures
        plan@ == refinement_plan(text@, job@),
{
    let user_text = trim(text);
    if user_text.as_str().is_empty() {
        return RefinementPlan::Empty;
    }
    if is_blank_str(job.api_key.as_str()) {
        return RefinementPlan::MissingKey;
    }
    match job.system_prompt() {
        None => RefinementPlan::Unchanged,
        Some(system_prompt) => RefinementPlan::Request { system_prompt, user_text },
    }
}

/// The text without the slashes at its end.
pub open spec fn without_trailing_slashes(s: Seq<char>) -> Seq<char>
    decreases s.len(),
{
    if s.len() > 0 && s.last() == '/' {
        without_trailing_slashes(s.drop_last())
    } else {
        s
    }
}

/// The address of an endpoint under a base URL.
pub open spec fn endpoint_address(base_url: Seq<char>, path: Seq<char>) -> Seq<char> {
    without_trailing_slashes(base_url) + path
}

pub fn endpoint_url(base_url: &str, path: &str) -> (url: String)
    ensures
        url@ == endpoint_address(base_url@, path@),
{
    let base = chars_of(base_url);
    let mut end: usize = base.len();
    assert(base@.take(end as int) =~= base@);
    while end > 0 && base[end - 1] == '/'
        invariant
            end <= base@.len(),
            without_trailing_slashes(base@) == without_trailing_slashes(base@.take(end as int)),
        decreases end,
    {
        assert(base@.take(end as int).drop_last() =~= base@.take(end - 1));
        end -= 1;
    }
    let mut url = slice_chars(&base, 0, end);
    assert(base@.subrange(0, end as int) =~= base@.take(end as int));
    push_str(&mut url, path);
    string_of(&url)
}

/// The content of the first choice of a chat response, trimmed; a response
/// without choices has none.
pub fn first_choice(contents: &Vec<String>) -> (text: Option<String>)
    ensures
        optional_string(text) == if contents@.len() > 0 {
            Some(trimmed(contents@[0]@))
        } else {
            None
        },
{
    if contents.len() > 0 {
        Some(trim(contents[0].as_str()))
    } else {
        None
    }
}

} // verus!
