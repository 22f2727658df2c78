//! The status events of the application.

use vstd::prelude::*;
use vstd::string::*;

verus! {

pub const EVENT_STATUS: &'static str = "transcription://status";

pub const EVENT_PARTIAL: &'static str = "transcription://partial";

pub const EVENT_COMPLETE: &'static str = "transcription://complete";

pub const EVENT_SETTINGS_CHANGED: &'static str = "settings://changed";

/// Where the application stands.
#[derive(Clone, Copy, Debug, PartialEq, Eq, Structural)]
pub enum StatusPhase {
    Idle,
    Recording,
    Transcribing,
    Success,
    Error,
}

impl StatusPhase {
    pub open spec fn spec_key(self) -> Seq<char> {
        match self {
            StatusPhase::Idle => "idle"@,
            StatusPhase::Recording => "recording"@,
            StatusPhase::Transcribing => "transcribing"@,
            StatusPhase::Success => "success"@,
            StatusPhase::Error => "error"@,
        }
    }

    pub open spec fn spec_default_message(self) -> Seq<char> {
        match self {
            StatusPhase::Idle => "Ready. Use the global hotkey to start a recording."@,
            StatusPhase::Recording => "Listening... release the hotkey to stop."@,
            StatusPhase::Transcribing => "Transcribing audio..."@,
            StatusPhase::Success => "Transcription complete."@,
            StatusPhase::Error => "Something went wrong."@,
        }
    }

    pub open spec fn spec_tray_label(self) -> Seq<char> {
        match self {
            StatusPhase::Idle => "Status: Idle"@,
            StatusPhase::Recording => "Status: Recording"@,
            StatusPhase::Transcribing => "Status: Transcribing"@,
            StatusPhase::Success => "Status: Complete"@,
            StatusPhase::Error => "Status: Error"@,
        }
    }

    /// The word that names the phase in events.
    pub fn key(self) -> (key: &'static str)
        ensures
            key@ == self.spec_key(),
    {
        match self {
            StatusPhase::Idle => "idle",
            StatusPhase::Recording => "recording",
            StatusPhase::Transcribing => "transcribing",
            StatusPhase::Success => "success",
            StatusPhase::Error => "error",
        }
    }

    /// The message shown where the caller gives none.
    pub fn default_message(self) -> (message: &'static str)
        ensures
            message@ == self.spec_default_message(),
    {
        match self {
            StatusPhase::Idle => "Ready. Use the global hotkey to start a recording.",
            StatusPhase::Recording => "Listening... release the hotkey to stop.",
            StatusPhase::Transcribing => "Transcribing audio...",
            StatusPhase::Success => "Transcription complete.",
            StatusPhase::Error => "Something went wrong.",
        }
    }

    /// The text of the tray's status item.
    pub fn tray_label(self) -> (label: &'static str)
        ensures
            label@ == self.spec_tray_label(),
    {
        match self {
            StatusPhase::Idle => "Status: Idle",
            StatusPhase::Recording => "Status: Recording",
            StatusPhase::Transcribing => "Status: Transcribing",
            StatusPhase::Success => "Status: Complete",
            StatusPhase::Error => "Status: Error",
        }
    }
}

/// The message of a status event: the caller's, or the phase's own.
pub fn status_message<'a>(phase: StatusPhase, message: Option<&'a str>) -> (text: &'a str)
    ensures
        text@ == match message {
            Some(m) => m@,
            None => phase.spec_default_message(),
        },
{
    match message {
        Some(m) => m,
        None => phase.default_message(),
    }
}

/// What the settings-changed event carries.
#[derive(Clone, Debug)]
pub struct SettingsChangedPayload {
    pub auto_translate: bool,
    pub target_language: String,
}

impl SettingsChangedPayload {
    pub fn new(auto_translate: bool, target_language: &str) -> (payload: Self)
        ensures
            payload.auto_translate == auto_translate,
            payload.target_language@ == target_language@,
    {
        SettingsChangedPayload { auto_translate, target_language: target_language.to_owned() }
    }
}

/// The status line after translation was switched on or off.
pub open spec fn translate_status(auto_translate: bool, target_language: Seq<char>) -> Seq<char> {
    if auto_translate {
        "Перевод ВКЛ → "@ + target_language
    } else {
        "Перевод ВЫКЛ"@
    }
}

pub fn translate_status_message(auto_translate: bool, target_language: &str) -> (message: String)
    ensures
        message@ == translate_status(auto_translate, target_language@),
{
    if auto_translate {
        let mut message = "Перевод ВКЛ → ".to_owned();
        message.append(target_language);
        message
    } else {
        "Перевод ВЫКЛ".to_owned()
    }
}

} // verus!
