//! Small rules of the command layer: log levels, start-up flags, menu
//! entries and the place of the overlay window.

use vstd::prelude::*;

use crate::text::{push_str, str_eq, string_of};

verus! {

/// The level of a log line that the frontend sends.
#[derive(Clone, Copy, PartialEq, Eq, Debug, Structural)]
pub enum LogLevel {
    Error,
    Warn,
    Info,
    Debug,
    Trace,
}

/// The level that a word names; every other word, and none, means `Info`.
pub open spec fn level_of(word: Seq<char>) -> LogLevel {
    if word == "error"@ {
        LogLevel::Error
    } else if word == "warn"@ {
        LogLevel::Warn
    } else if word == "debug"@ {
        LogLevel::Debug
    } else if word == "trace"@ {
        LogLevel::Trace
    } else {
        LogLevel::Info
    }
}

pub fn frontend_log_level(level: Option<&str>) -> (chosen: LogLevel)
    ensures
        chosen == match level {
            Some(word) => level_of(word@),
            None => LogLevel::Info,
        },
{
    match level {
        None => LogLevel::Info,
        Some(word) => {
            if str_eq(word, "error") {
                LogLevel::Error
            } else if str_eq(word, "warn") {
                LogLevel::Warn
            } else if str_eq(word, "debug") {
                LogLevel::Debug
            } else if str_eq(word, "trace") {
                LogLevel::Trace
            } else {
                LogLevel::Info
            }
        },
    }
}

/// Whether an argument says that the system started the application.
pub open spec fn is_autostart_flag(arg: Seq<char>) -> bool {
    arg == "--autostart"@ || arg == "--minimized"@
}

/// Whether the system started the application: then its window stays
/// hidden.
pub fn started_by_system(args: &Vec<String>) -> (autostart: bool)
    ensures
        autostart == exists|i: int| 0 <= i < args@.len() && is_autostart_flag(#[trigger] args@[i]@),
{
    let mut i: usize = 0;
    while i < args.len()
        invariant
            i <= args@.len(),
            forall|j: int| 0 <= j < i ==> !is_autostart_flag(#[trigger] args@[j]@),
        decreases args@.len() - i,
    {
        if str_eq(args[i].as_str(), "--autostart") || str_eq(args[i].as_str(), "--minimized") {
            return true;
        }
        i += 1;
    }
    false
}

/// What an entry of the tray menu does.
#[derive(Clone, Copy, PartialEq, Eq, Debug, Structural)]
pub enum MenuAction {
    ShowSettings,
    Quit,
    Nothing,
}

pub fn menu_action(id: &str) -> (action: MenuAction)
    ensures
        action == if id@ == "open"@ {
            MenuAction::ShowSettings
        } else if id@ == "quit"@ {
            MenuAction::Quit
        } else {
            MenuAction::Nothing
        },
{
    if str_eq(id, "open") {
        MenuAction::ShowSettings
    } else if str_eq(id, "quit") {
        MenuAction::Quit
    } else {
        MenuAction::Nothing
    }
}

pub const OVERLAY_WIDTH: i32 = 600;

pub const OVERLAY_HEIGHT: i32 = 150;

pub const OVERLAY_BOTTOM_MARGIN: i32 = 60;

/// The nearest value that a 32-bit coordinate can hold.
pub open spec fn clamped(v: int) -> int {
    if v < i32::MIN {
        i32::MIN as int
    } else if v > i32::MAX {
        i32::MAX as int
    } else {
        v
    }
}

/// Division that truncates toward zero.
pub open spec fn half(v: int) -> int {
    if v >= 0 {
        v / 2
    } else {
        -((-v) / 2)
    }
}

/// The overlay's left edge: centred in the work area.
pub open spec fn overlay_x(left: i32, right: i32) -> int {
    clamped(left + half(right - left - OVERLAY_WIDTH))
}

/// The overlay's top edge: above the bottom of the work area by its
/// height and the margin.
pub open spec fn overlay_y(bottom: i32) -> int {
    clamped(bottom - OVERLAY_HEIGHT - OVERLAY_BOTTOM_MARGIN)
}

fn clamp_coordinate(v: i64) -> (c: i32)
    ensures
        c == clamped(v as int),
{
    if v < i32::MIN as i64 {
        i32::MIN
    } else if v > i32::MAX as i64 {
        i32::MAX
    } else {
        v as i32
    }
}

/// Where the overlay goes on a monitor with the given work area.
pub fn overlay_position(left: i32, right: i32, bottom: i32) -> (position: (i32, i32))
    ensures
        position.0 == overlay_x(left, right),
        position.1 == overlay_y(bottom),
{
    let spare: i64 = right as i64 - left as i64 - OVERLAY_WIDTH as i64;
    let shift: i64 = if spare >= 0 {
        spare / 2
    } else {
        -((-spare) / 2)
    };
    let x = clamp_coordinate(left as i64 + shift);
    let y = clamp_coordinate(bottom as i64 - OVERLAY_HEIGHT as i64 - OVERLAY_BOTTOM_MARGIN as i64);
    (x, y)
}

/// The line that the transcript log gets.
pub open spec fn transcript_log_text(tag: Seq<char>, text: Seq<char>) -> Seq<char> {
    "["@ + tag + "] "@ + text
}

pub fn transcript_log_line(tag: &str, text: &str) -> (line: String)
    ensures
        line@ == transcript_log_text(tag@, text@),
{
    let mut out: Vec<char> = Vec::new();
    push_str(&mut out, "[");
    push_str(&mut out, tag);
    push_str(&mut out, "] ");
    push_str(&mut out, text);
    string_of(&out)
}

} // verus!
