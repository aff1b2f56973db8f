//! The user's settings.

use super::files::{Backup, FileState};
use crate::entry::InputMode;
use crate::text::opt_text;
use vstd::prelude::*;
use vstd::string::*;

verus! {

#[derive(Debug)]
pub struct Settings {
    pub scrollback_lines: usize,
    pub default_input_mode: InputMode,
    pub terminal_type: String,
}

/// What the settings say.
#[verifier::ext_equal]
pub ghost struct SettingsModel {
    pub scrollback_lines: usize,
    pub default_input_mode: InputMode,
    pub terminal_type: Seq<char>,
}

impl Settings {
    /// What it holds.
    pub open spec fn view(&self) -> SettingsModel {
        SettingsModel {
            scrollback_lines: self.scrollback_lines,
            default_input_mode: self.default_input_mode,
            terminal_type: self.terminal_type@,
        }
    }
}

/// A thousand lines of scrollback, line mode, `xterm-256color`.
pub open spec fn default_settings() -> SettingsModel {
    SettingsModel {
        scrollback_lines: 1000,
        default_input_mode: InputMode::LineBuffered,
        terminal_type: "xterm-256color"@,
    }
}

pub fn default_scrollback_lines() -> (lines: usize)
    ensures
        lines == default_settings().scrollback_lines,
{
    1000
}

pub fn default_input_mode() -> (mode: InputMode)
    ensures
        mode == default_settings().default_input_mode,
{
    InputMode::LineBuffered
}

pub fn default_terminal_type() -> (name: String)
    ensures
        name@ == default_settings().terminal_type,
{
    "xterm-256color".to_owned()
}

impl Default for Settings {
    fn default() -> (settings: Self)
        ensures
            settings@ == default_settings(),
    {
        Settings {
            scrollback_lines: default_scrollback_lines(),
            default_input_mode: default_input_mode(),
            terminal_type: default_terminal_type(),
        }
    }
}

impl Clone for Settings {
    fn clone(&self) -> (copy: Self)
        ensures
            copy@ == self@,
    {
        Settings {
            scrollback_lines: self.scrollback_lines,
            default_input_mode: self.default_input_mode,
            terminal_type: self.terminal_type.clone(),
        }
    }
}

pub struct LoadedSettings {
    pub settings: Settings,
    pub warning: Option<String>,
}

/// What the user is told of settings that do not parse.
pub open spec fn corrupt_warning(path: Seq<char>, error: Seq<char>, backup: Backup) -> Seq<char> {
    match backup {
        Backup::Moved(to) => "settings file at "@ + path + " failed to parse ("@ + error
            + "); quarantined to "@ + to@ + ", using defaults"@,
        Backup::Failed(e) => "settings file at "@ + path + " failed to parse ("@ + error
            + "); failed to quarantine: "@ + e@ + ", using defaults"@,
    }
}

/// The settings and what to tell the user of them. Settings that are not there or
/// cannot be read are the defaults, without a word; the user hears of settings that
/// do not parse.
pub open spec fn loaded(file: FileState<Settings>) -> (SettingsModel, Option<Seq<char>>) {
    match file {
        FileState::Parsed(settings) => (settings@, None),
        FileState::Malformed { path, error, backup } => (
            default_settings(),
            Some(corrupt_warning(path@, error@, backup)),
        ),
        _ => (default_settings(), None),
    }
}

/// The settings, given what was found in the file.
pub fn load(file: FileState<Settings>) -> (result: LoadedSettings)
    ensures
        (result.settings@, opt_text(result.warning)) == loaded(file),
{
    match file {
        FileState::Parsed(settings) => LoadedSettings { settings, warning: None },
        FileState::Malformed { path, error, backup } => {
            let mut warning = "settings file at ".to_owned();
            warning.append(&path);
            warning.append(" failed to parse (");
            warning.append(&error);
            match &backup {
                Backup::Moved(to) => {
                    warning.append("); quarantined to ");
                    warning.append(to);
                },
                Backup::Failed(e) => {
                    warning.append("); failed to quarantine: ");
                    warning.append(e);
                },
            }
            warning.append(", using defaults");
            LoadedSettings { settings: Settings::default(), warning: Some(warning) }
        },
        FileState::NoLocation(_) | FileState::Missing | FileState::Unreadable { .. } => {
            LoadedSettings { settings: Settings::default(), warning: None }
        },
    }
}

} // verus!
