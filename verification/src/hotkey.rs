//! What a press and a release of the hotkey lead to: whether the live
//! session is reused, a new one is connected, or the recorder takes over;
//! and which shortcuts are registered.

use vstd::prelude::*;

use crate::elevenlabs_streaming::{ConfigView, ConnectionConfig};
use crate::settings::{normal_hotkey, AppSettings, SettingsView, TranscriptionProvider};
use crate::text::{
    join_chars, joined_with, piece_views, push_chars, push_str, string_of, trim, trimmed,
};

verus! {

/// Sample rate of a connect that has only the settings to go by.
pub const FALLBACK_SAMPLE_RATE: u32 = 48_000;

/// Language of a connect that has only the settings to go by.
pub const FALLBACK_LANGUAGE: &'static str = "auto";

/// Where the configuration of a connect comes from.
#[derive(Clone, Copy, PartialEq, Eq, Debug, Structural)]
pub enum ConnectAttempt {
    /// The configuration of the last successful connect.
    LastConfig,
    /// The API key of the settings, the fallback rate and language.
    FromSettings,
}

/// What follows a press of the hotkey.
pub enum PressPlan {
    /// Open the transmit gate of the live session.
    OpenGate,
    /// Connect with this configuration, restart the audio pipeline, and
    /// report through `after_connect`.
    Connect { attempt: ConnectAttempt, config: ConnectionConfig },
    /// Use the recorder: record, then upload.
    Legacy,
}

/// A `PressPlan` as plain values.
pub enum PressPlanView {
    OpenGate,
    Connect { attempt: ConnectAttempt, config: ConfigView },
    Legacy,
}

impl View for PressPlan {
    type V = PressPlanView;

    open spec fn view(&self) -> PressPlanView {
        match self {
            PressPlan::OpenGate => PressPlanView::OpenGate,
            PressPlan::Connect { attempt, config } => PressPlanView::Connect {
                attempt: *attempt,
                config: config@,
            },
            PressPlan::Legacy => PressPlanView::Legacy,
        }
    }
}

/// The view of an optional configuration.
pub open spec fn optional_config(config: Option<ConnectionConfig>) -> Option<ConfigView> {
    match config {
        Some(c) => Some(c@),
        None => None,
    }
}

/// The connect that has only the settings to go by; without an API key
/// there is none and the recorder takes over.
pub open spec fn settings_plan(settings_key: Seq<char>) -> PressPlanView {
    let key = trimmed(settings_key);
    if key.len() == 0 {
        PressPlanView::Legacy
    } else {
        PressPlanView::Connect {
            attempt: ConnectAttempt::FromSettings,
            config: ConfigView {
                api_key: key,
                sample_rate: FALLBACK_SAMPLE_RATE,
                language_code: FALLBACK_LANGUAGE@,
            },
        }
    }
}

/// The plan for a press: a live session that is not committing is reused;
/// otherwise the last configuration is tried first and the settings next.
pub open spec fn press_plan(
    provider: TranscriptionProvider,
    connected: bool,
    committing: bool,
    last_config: Option<ConfigView>,
    settings_key: Seq<char>,
) -> PressPlanView {
    if provider != TranscriptionProvider::ElevenLabs {
        PressPlanView::Legacy
    } else if connected && !committing {
        PressPlanView::OpenGate
    } else {
        match last_config {
            Some(config) => PressPlanView::Connect { attempt: ConnectAttempt::LastConfig, config },
            None => settings_plan(settings_key),
        }
    }
}

/// The plan after a connect: open the transmit gate where it succeeded, fall
/// back once where the last configuration failed, give up after that.
pub open spec fn plan_after_connect(
    attempt: ConnectAttempt,
    succeeded: bool,
    settings_key: Seq<char>,
) -> PressPlanView {
    if succeeded {
        PressPlanView::OpenGate
    } else if attempt == ConnectAttempt::LastConfig {
        settings_plan(settings_key)
    } else {
        PressPlanView::Legacy
    }
}

fn plan_from_settings(settings_key: &str) -> (plan: PressPlan)
    ensures
        plan@ == settings_plan(settings_key@),
{
    let key = trim(settings_key);
    if key.as_str().is_empty() {
        PressPlan::Legacy
    } else {
        PressPlan::Connect {
            attempt: ConnectAttempt::FromSettings,
            config: ConnectionConfig::new(key, FALLBACK_SAMPLE_RATE, FALLBACK_LANGUAGE.to_owned()),
        }
    }
}

/// Decides what a press of the hotkey leads to.
pub fn plan_press(
    provider: TranscriptionProvider,
    connected: bool,
    committing: bool,
    last_config: Option<ConnectionConfig>,
    settings_key: &str,
) -> (plan: PressPlan)
    ensures
        plan@ == press_plan(
            provider,
            connected,
            committing,
            optional_config(last_config),
            settings_key@,
        ),
{
    if provider != TranscriptionProvider::ElevenLabs {
        return PressPlan::Legacy;
    }
    if connected && !committing {
        return PressPlan::OpenGate;
    }
    match last_config {
        Some(config) => PressPlan::Connect { attempt: ConnectAttempt::LastConfig, config },
        None => plan_from_settings(settings_key),
    }
}

/// Decides what follows a connect that a press asked for.
pub fn after_connect(attempt: ConnectAttempt, succeeded: bool, settings_key: &str) -> (plan:
    PressPlan)
    ensures
        plan@ == plan_after_connect(attempt, succeeded, settings_key@),
{
    if succeeded {
        return PressPlan::OpenGate;
    }
    match attempt {
        ConnectAttempt::LastConfig => plan_from_settings(settings_key),
        ConnectAttempt::FromSettings => PressPlan::Legacy,
    }
}

/// Retries stop after the second connect: a press leads to at most one
/// connect with the last configuration and one with the settings, in this
/// order, and a failed connect with the settings leads to the recorder.
pub proof fn lemma_at_most_two_connects(
    provider: TranscriptionProvider,
    connected: bool,
    committing: bool,
    last_config: Option<ConfigView>,
    settings_key: Seq<char>,
    succeeded: bool,
)
    ensures
        plan_after_connect(ConnectAttempt::FromSettings, false, settings_key)
            == PressPlanView::Legacy,
        !(plan_after_connect(ConnectAttempt::LastConfig, succeeded, settings_key) matches PressPlanView::Connect {
            attempt: ConnectAttempt::LastConfig,
            ..
        }),
        press_plan(provider, connected, committing, last_config, settings_key) matches PressPlanView::Connect {
            attempt: ConnectAttempt::LastConfig,
            config,
        } ==> last_config == Some(config),
        plan_after_connect(ConnectAttempt::LastConfig, true, settings_key)
            == PressPlanView::OpenGate,
        plan_after_connect(ConnectAttempt::FromSettings, true, settings_key)
            == PressPlanView::OpenGate,
{
}

/// What a press does on the recorder's path.
#[derive(Clone, Copy, PartialEq, Eq, Debug, Structural)]
pub enum LegacyPress {
    /// The mock provider records nothing: only the status changes.
    MockRecording,
    /// A transcription is under way: say so and do nothing.
    AlreadyTranscribing,
    /// A recording is under way: do nothing.
    AlreadyRecording,
    /// Start the recorder.
    StartRecording,
}

pub fn plan_legacy_press(
    provider: TranscriptionProvider,
    transcribing: bool,
    recording: bool,
) -> (plan: LegacyPress)
    ensures
        plan == if provider == TranscriptionProvider::Mock {
            LegacyPress::MockRecording
        } else if transcribing {
            LegacyPress::AlreadyTranscribing
        } else if recording {
            LegacyPress::AlreadyRecording
        } else {
            LegacyPress::StartRecording
        },
{
    if provider == TranscriptionProvider::Mock {
        LegacyPress::MockRecording
    } else if transcribing {
        LegacyPress::AlreadyTranscribing
    } else if recording {
        LegacyPress::AlreadyRecording
    } else {
        LegacyPress::StartRecording
    }
}

/// What follows a release of the hotkey.
#[derive(Clone, Copy, PartialEq, Eq, Debug, Structural)]
pub enum ReleasePlan {
    /// Stop the recording and upload it.
    StopRecording,
    /// Nothing was streamed: close the transmit gate and send no commit.
    CloseGate,
    /// Close the transmit gate and commit the turn.
    Commit,
    /// Nothing to do.
    Nothing,
}

/// The plan for a release: a recording in progress comes first; a live
/// streaming session is committed only where audio went out.
pub fn plan_release(
    recording: bool,
    provider: TranscriptionProvider,
    connected: bool,
    had_audio: bool,
) -> (plan: ReleasePlan)
    ensures
        plan == if recording {
            ReleasePlan::StopRecording
        } else if provider != TranscriptionProvider::ElevenLabs || !connected {
            ReleasePlan::Nothing
        } else if had_audio {
            ReleasePlan::Commit
        } else {
            ReleasePlan::CloseGate
        },
{
    if recording {
        ReleasePlan::StopRecording
    } else if provider != TranscriptionProvider::ElevenLabs || !connected {
        ReleasePlan::Nothing
    } else if had_audio {
        ReleasePlan::Commit
    } else {
        ReleasePlan::CloseGate
    }
}

/// What a shortcut does.
#[derive(Clone, Copy, PartialEq, Eq, Debug, Structural)]
pub enum HotkeyRole {
    /// Push to talk.
    Main,
    /// Push to talk, with translation forced on.
    Translate,
    /// Switches translation on and off.
    ToggleTranslate,
}

impl HotkeyRole {
    pub open spec fn spec_label(self) -> Seq<char> {
        match self {
            HotkeyRole::Main => "Main hotkey"@,
            HotkeyRole::Translate => "Translate hotkey"@,
            HotkeyRole::ToggleTranslate => "Toggle hotkey"@,
        }
    }

    pub fn label(self) -> (label: &'static str)
        ensures
            label@ == self.spec_label(),
    {
        match self {
            HotkeyRole::Main => "Main hotkey",
            HotkeyRole::Translate => "Translate hotkey",
            HotkeyRole::ToggleTranslate => "Toggle hotkey",
        }
    }
}

/// A shortcut to register.
pub struct HotkeyBinding {
    pub role: HotkeyRole,
    pub shortcut: String,
}

impl View for HotkeyBinding {
    type V = (HotkeyRole, Seq<char>);

    open spec fn view(&self) -> (HotkeyRole, Seq<char>) {
        (self.role, self.shortcut@)
    }
}

/// The views of a list of bindings.
pub open spec fn binding_views(bindings: Seq<HotkeyBinding>) -> Seq<(HotkeyRole, Seq<char>)> {
    bindings.map_values(|b: HotkeyBinding| b@)
}

/// The shortcuts that the settings ask for: always the main one, in normal
/// form, and each of the other two where it is set.
pub open spec fn wanted_bindings(settings: SettingsView) -> Seq<(HotkeyRole, Seq<char>)> {
    let main = seq![(HotkeyRole::Main, normal_hotkey(settings.hotkey))];
    let translate = if settings.translate_hotkey.len() > 0 {
        seq![(HotkeyRole::Translate, trimmed(settings.translate_hotkey))]
    } else {
        Seq::empty()
    };
    let toggle = if settings.toggle_translate_hotkey.len() > 0 {
        seq![(HotkeyRole::ToggleTranslate, trimmed(settings.toggle_translate_hotkey))]
    } else {
        Seq::empty()
    };
    main + translate + toggle
}

pub fn hotkey_bindings(settings: &AppSettings) -> (bindings: Vec<HotkeyBinding>)
    ensures
        binding_views(bindings@) == wanted_bindings(settings@),
{
    let mut bindings: Vec<HotkeyBinding> = Vec::new();
    bindings.push(HotkeyBinding { role: HotkeyRole::Main, shortcut: settings.normalized_hotkey() });
    if !settings.translate_hotkey.as_str().is_empty() {
        bindings.push(
            HotkeyBinding {
                role: HotkeyRole::Translate,
                shortcut: trim(settings.translate_hotkey.as_str()),
            },
        );
    }
    if !settings.toggle_translate_hotkey.as_str().is_empty() {
        bindings.push(
            HotkeyBinding {
                role: HotkeyRole::ToggleTranslate,
                shortcut: trim(settings.toggle_translate_hotkey.as_str()),
            },
        );
    }
    assert(binding_views(bindings@) =~= wanted_bindings(settings@));
    bindings
}

/// A shortcut that could not be registered.
pub struct RegistrationFailure {
    pub role: HotkeyRole,
    pub shortcut: String,
    pub reason: String,
}

impl RegistrationFailure {
    /// The line that describes the failure.
    pub open spec fn text(self) -> Seq<char> {
        self.role.spec_label() + " '"@ + self.shortcut@ + "': "@ + self.reason@
    }

    pub fn describe(&self) -> (line: Vec<char>)
        ensures
            line@ == self.text(),
    {
        let mut line: Vec<char> = Vec::new();
        push_str(&mut line, self.role.label());
        push_str(&mut line, " '");
        push_str(&mut line, self.shortcut.as_str());
        push_str(&mut line, "': ");
        push_str(&mut line, self.reason.as_str());
        assert(line@ =~= self.text());
        line
    }
}

/// The lines of a list of failures.
pub open spec fn failure_lines(failures: Seq<RegistrationFailure>) -> Seq<Seq<char>> {
    failures.map_values(|f: RegistrationFailure| f.text())
}

/// Whether the main shortcut is among the failures.
pub open spec fn main_failed(failures: Seq<RegistrationFailure>) -> bool {
    exists|i: int| 0 <= i < failures.len() && (#[trigger] failures[i]).role == HotkeyRole::Main
}

/// The result of registering the shortcuts: only a failure of the main
/// shortcut counts, and the error then lists every failure.
pub open spec fn rebind_outcome(failures: Seq<RegistrationFailure>) -> Result<(), Seq<char>> {
    if main_failed(failures) {
        Err("Failed to register hotkeys: "@ + joined_with(failure_lines(failures), "; "@))
    } else {
        Ok(())
    }
}

/// The result of a rebind as plain values.
pub open spec fn rebind_view(result: Result<(), String>) -> Result<(), Seq<char>> {
    match result {
        Ok(()) => Ok(()),
        Err(e) => Err(e@),
    }
}

pub fn rebind_result(failures: &Vec<RegistrationFailure>) -> (result: Result<(), String>)
    ensures
        rebind_view(result) == rebind_outcome(failures@),
{
    let mut lines: Vec<Vec<char>> = Vec::new();
    let mut main: bool = false;
    let mut i: usize = 0;
    while i < failures.len()
        invariant
            i <= failures@.len(),
            lines@.len() == i,
            piece_views(lines@) == failure_lines(failures@).take(i as int),
            main == main_failed(failures@.take(i as int)),
        decreases failures@.len() - i,
    {
        let line = failures[i].describe();
        let ghost earlier = lines@;
        lines.push(line);
        assert forall|j: int| 0 <= j < i + 1 implies piece_views(lines@)[j] == failure_lines(
            failures@,
        ).take(i + 1)[j] by {
            if j < i {
                assert(piece_views(earlier)[j] == failure_lines(failures@).take(i as int)[j]);
                assert(lines@[j] == earlier[j]);
            }
        }
        assert(piece_views(lines@) =~= failure_lines(failures@).take(i + 1));
        proof {
            let before = failures@.take(i as int);
            let now = failures@.take(i + 1);
            if main_failed(before) {
                let k = choose|k: int| 0 <= k < before.len() && (#[trigger] before[k]).role
                    == HotkeyRole::Main;
                assert(now[k] == before[k]);
            }
            if failures@[i as int].role == HotkeyRole::Main {
                assert(now[i as int].role == HotkeyRole::Main);
            }
            if main_failed(now) {
                let k = choose|k: int| 0 <= k < now.len() && (#[trigger] now[k]).role
                    == HotkeyRole::Main;
                if k < i {
                    assert(before[k] == now[k]);
                }
            }
        }
        if failures[i].role == HotkeyRole::Main {
            main = true;
        }
        i += 1;
    }
    assert(failures@.take(failures@.len() as int) =~= failures@);
    assert(failure_lines(failures@).take(failures@.len() as int) =~= failure_lines(failures@));
    if !main {
        return Ok(());
    }
    let mut message: Vec<char> = Vec::new();
    push_str(&mut message, "Failed to register hotkeys: ");
    let listed = join_chars(&lines, "; ");
    push_chars(&mut message, &listed);
    Err(string_of(&message))
}

} // verus!
