//! macOS: the system keeps the status and asks the user itself.

use crate::platform::types::{PermissionStatus, PlatformError, PlatformResult};
use vstd::prelude::*;
use vstd::string::*;

verus! {

/// macOS platform integration.
#[derive(Debug, Clone, Copy)]
pub struct MacOSPlatform;

/// What to do about a request for the microphone.
#[derive(Debug)]
pub enum RequestStep {
    /// The answer is known without asking.
    Answered(bool),
    /// The user has not been asked yet: show the system's dialog.
    AskUser,
}

impl MacOSPlatform {
    /// The status as the system reports it.
    pub fn check_microphone_permission(&self, status: PermissionStatus) -> (result:
        PermissionStatus)
        ensures
            result == status,
    {
        status
    }

    /// First step of a request: granted access needs no asking, refused or
    /// restricted access cannot be asked for again, and only an open status
    /// leads to the system's dialog.
    pub fn request_microphone_permission(&self, status: PermissionStatus) -> (step: RequestStep)
        ensures
            status is Authorized ==> (step matches RequestStep::Answered(granted) && granted),
            status is Denied || status is Restricted ==> (step matches RequestStep::Answered(
                granted,
            ) && !granted),
            status is NotDetermined ==> step is AskUser,
    {
        match status {
            PermissionStatus::Authorized => RequestStep::Answered(true),
            PermissionStatus::Denied => RequestStep::Answered(false),
            PermissionStatus::Restricted => RequestStep::Answered(false),
            PermissionStatus::NotDetermined => RequestStep::AskUser,
        }
    }

    /// Last step of a request: the user's answer, or the failure to get one.
    pub fn user_answered(&self, answer: Result<bool, String>) -> (outcome: PlatformResult<bool>)
        ensures
            answer matches Ok(granted) ==> outcome == Ok::<bool, PlatformError>(granted),
            answer matches Err(cause) ==> (outcome matches Err(
                PlatformError::OperationFailed(detail),
            ) && detail@ == "Permission request failed: "@ + cause@),
    {
        match answer {
            Ok(granted) => Ok(granted),
            Err(cause) => Err(
                PlatformError::OperationFailed(
                    String::from_str("Permission request failed: ").concat(cause.as_str()),
                ),
            ),
        }
    }
}

} // verus!
