//! The values the presentation shell keeps between commands.

use vstd::prelude::*;
use vstd::string::*;

verus! {

/// What the application is doing.
#[derive(Debug, Clone, Copy, PartialEq, Eq, Structural)]
pub enum AppStatus {
    Idle,
    Listening,
    Processing,
    Error,
}

impl AppStatus {
    /// The text of `name`.
    pub open spec fn name_spec(self) -> Seq<char> {
        match self {
            AppStatus::Idle => "idle"@,
            AppStatus::Listening => "listening"@,
            AppStatus::Processing => "processing"@,
            AppStatus::Error => "error"@,
        }
    }

    /// The name under which the status is announced.
    pub fn name(&self) -> (name: &'static str)
        ensures
            name@ == self.name_spec(),
    {
        match self {
            AppStatus::Idle => "idle",
            AppStatus::Listening => "listening",
            AppStatus::Processing => "processing",
            AppStatus::Error => "error",
        }
    }
}

/// Language to transcribe; `Auto` leaves the choice to the engine.
#[derive(Debug, Clone, Copy, PartialEq, Eq, Structural)]
pub enum Language {
    Auto,
    En,
    Fr,
    Es,
    De,
    It,
    Pt,
    Nl,
    Ja,
    Zh,
    Ko,
    Ar,
    Hi,
    Pl,
}

impl Default for Language {
    fn default() -> (language: Self)
        ensures
            language == Language::Auto,
    {
        Language::Auto
    }
}

/// What the user has chosen.
#[derive(Debug, Clone)]
pub struct Settings {
    pub language: Language,
    pub model: String,
    pub quantization: String,
    pub shortcut: String,
}

impl Default for Settings {
    fn default() -> (settings: Self)
        ensures
            settings.language == Language::Auto,
            settings.model@ == "large-v3-turbo"@,
            settings.quantization@ == "q5_0"@,
            settings.shortcut@ == "CommandOrControl+Shift+Space"@,
    {
        Settings {
            language: Language::Auto,
            model: String::from_str("large-v3-turbo"),
            quantization: String::from_str("q5_0"),
            shortcut: String::from_str("CommandOrControl+Shift+Space"),
        }
    }
}

/// What the system has allowed.
#[derive(Debug, Clone)]
pub struct Permissions {
    pub microphone: bool,
}

impl Default for Permissions {
    fn default() -> (permissions: Self)
        ensures
            !permissions.microphone,
    {
        Permissions { microphone: false }
    }
}

} // verus!
