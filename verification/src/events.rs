//! Payloads of the notifications sent to the presentation shell.

use vstd::prelude::*;

verus! {

/// A finished transcript.
#[derive(Debug, Clone)]
pub struct TranscriptEvent {
    pub text: String,
}

/// The application changed what it is doing.
#[derive(Debug, Clone, Copy)]
pub enum StateChangeEvent {
    Idle,
    Listening,
    Processing,
    Error,
}

/// A permission the application cannot go on without.
#[derive(Debug, Clone, Copy)]
pub enum PermissionRequiredEvent {
    Microphone,
    Accessibility,
}

impl PermissionRequiredEvent {
    /// The text of `name`.
    pub open spec fn name_spec(self) -> Seq<char> {
        match self {
            PermissionRequiredEvent::Microphone => "microphone"@,
            PermissionRequiredEvent::Accessibility => "accessibility"@,
        }
    }

    /// The name under which the permission is asked for.
    pub fn name(&self) -> (name: &'static str)
        ensures
            name@ == self.name_spec(),
    {
        match self {
            PermissionRequiredEvent::Microphone => "microphone",
            PermissionRequiredEvent::Accessibility => "accessibility",
        }
    }
}

} // verus!
