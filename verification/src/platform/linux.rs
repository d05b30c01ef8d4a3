//! Linux: access is a matter of which sound devices exist and can be reached.

use crate::platform::types::{PermissionStatus, PlatformResult};
use crate::text::{contains_chars, contains_text, has_prefix, starts_with, to_chars};
use crate::whisper::osinfo::{lowercase_of, session_names_wayland};
use vstd::prelude::*;

verus! {

/// Linux platform integration.
#[derive(Debug, Clone, Copy)]
pub struct LinuxPlatform;

/// The name of a sound device that captures: it begins with `pcm` and holds
/// a `c`. As `pcm` itself holds a `c`, every name that begins with `pcm`
/// counts, those of playback devices included.
pub open spec fn capture_device_name(name: Seq<char>) -> bool {
    starts_with(name, "pcm"@) && contains_text(name, "c"@)
}

/// Some device of the listing captures.
pub open spec fn has_capture_device(names: Seq<String>) -> bool {
    exists|i: int| 0 <= i < names.len() && capture_device_name(#[trigger] names[i]@)
}

/// Whether a device of this name captures.
pub fn is_capture_device(name: &str) -> (captures: bool)
    ensures
        captures == capture_device_name(name@),
{
    let chars = to_chars(name);
    let prefix = to_chars("pcm");
    let letter = to_chars("c");
    has_prefix(&chars, &prefix) && contains_chars(&chars, &letter)
}

/// The status for a listing of the sound device directory.
pub open spec fn microphone_status(sound_devices: Option<&Vec<String>>) -> PermissionStatus {
    match sound_devices {
        Some(names) => if has_capture_device(names@) {
            PermissionStatus::Authorized
        } else {
            PermissionStatus::NotDetermined
        },
        None => PermissionStatus::Authorized,
    }
}

impl LinuxPlatform {
    /// The status for a listing of the sound device directory, `None` where
    /// the directory could not be read. Only a readable directory without
    /// any capture device leaves the status open; in every other case access
    /// is taken as given, and opening the device will tell.
    pub fn check_microphone_permission(&self, sound_devices: Option<&Vec<String>>) -> (status:
        PermissionStatus)
        ensures
            status == microphone_status(sound_devices),
    {
        match sound_devices {
            Some(names) => {
                let mut i: usize = 0;
                while i < names.len()
                    invariant
                        sound_devices == Some(names),
                        i <= names@.len(),
                        forall|k: int| 0 <= k < i ==> !capture_device_name(#[trigger] names@[k]@),
                    decreases names@.len() - i,
                {
                    if is_capture_device(names[i].as_str()) {
                        proof {
                            assert(capture_device_name(names@[i as int]@));
                            assert(has_capture_device(names@));
                        }
                        return PermissionStatus::Authorized;
                    }
                    i += 1;
                }
                PermissionStatus::NotDetermined
            },
            None => PermissionStatus::Authorized,
        }
    }

    /// Linux has no dialog to ask with: the request always counts as
    /// granted, and opening the device will tell.
    pub fn request_microphone_permission(&self, status: PermissionStatus) -> (outcome:
        PlatformResult<bool>)
        ensures
            outcome matches Ok(granted) && granted,
    {
        Ok(true)
    }
}

/// Whether the session runs on Wayland: a Wayland display is set, or the
/// session type names Wayland, in whatever case it is written.
pub fn is_wayland(wayland_display_set: bool, session_type: Option<&str>) -> (wayland: bool)
    ensures
        wayland == (wayland_display_set || (session_type matches Some(kind) && contains_text(
            lowercase_of(kind@),
            "wayland"@,
        ))),
{
    if wayland_display_set {
        return true;
    }
    match session_type {
        Some(kind) => session_names_wayland(kind),
        None => false,
    }
}

} // verus!
