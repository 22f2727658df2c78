//! The errors that commands hand to the frontend.

use vstd::prelude::*;

use crate::settings::SettingsValidationError;

verus! {

/// Why a command failed.
#[derive(Debug)]
pub enum CommandError {
    Settings(SettingsValidationError),
    Hotkey(String),
    Io(String),
    Lock(String),
    NotFound(String),
    Unavailable(String),
}

impl CommandError {
    pub open spec fn spec_code(self) -> Seq<char> {
        match self {
            CommandError::Settings(_) => "settings"@,
            CommandError::Hotkey(_) => "hotkey"@,
            CommandError::Io(_) => "io"@,
            CommandError::Lock(_) => "lock"@,
            CommandError::NotFound(_) => "not_found"@,
            CommandError::Unavailable(_) => "unavailable"@,
        }
    }

    /// The text of the error: that of what it wraps.
    pub open spec fn text(self) -> Seq<char> {
        match self {
            CommandError::Settings(e) => e@.text(),
            CommandError::Hotkey(m) => m@,
            CommandError::Io(m) => m@,
            CommandError::Lock(m) => m@,
            CommandError::NotFound(m) => m@,
            CommandError::Unavailable(m) => m@,
        }
    }

    /// The word by which the frontend tells the kinds of error apart.
    pub fn code(&self) -> (code: &'static str)
        ensures
            code@ == self.spec_code(),
    {
        match self {
            CommandError::Settings(_) => "settings",
            CommandError::Hotkey(_) => "hotkey",
            CommandError::Io(_) => "io",
            CommandError::Lock(_) => "lock",
            CommandError::NotFound(_) => "not_found",
            CommandError::Unavailable(_) => "unavailable",
        }
    }

    pub fn message(&self) -> (message: String)
        ensures
            message@ == self.text(),
    {
        match self {
            CommandError::Settings(e) => e.message(),
            CommandError::Hotkey(m) => m.clone(),
            CommandError::Io(m) => m.clone(),
            CommandError::Lock(m) => m.clone(),
            CommandError::NotFound(m) => m.clone(),
            CommandError::Unavailable(m) => m.clone(),
        }
    }
}

} // verus!
