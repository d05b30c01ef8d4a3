use s2tui::permissions;
use s2tui::platform::linux::{is_capture_device, is_wayland, LinuxPlatform};
use s2tui::platform::macos::{MacOSPlatform, RequestStep};
use s2tui::platform::types::{PermissionStatus, PlatformError};
use s2tui::platform::windows::{DeviceListing, WindowsPlatform};
use s2tui::platform::{is_microphone_authorized, request_microphone_permission};
use s2tui::whisper::gpu::TargetOs;

fn names(list: &[&str]) -> Vec<String> {
    list.iter().map(|name| name.to_string()).collect()
}

#[test]
fn only_authorized_is_granted() {
    assert!(PermissionStatus::Authorized.is_granted());
    assert!(!PermissionStatus::Denied.is_granted());
    assert!(!PermissionStatus::NotDetermined.is_granted());
    assert!(!PermissionStatus::Restricted.is_granted());
    assert!(is_microphone_authorized(PermissionStatus::Authorized));
    assert!(!is_microphone_authorized(PermissionStatus::Denied));
    assert!(!is_microphone_authorized(PermissionStatus::NotDetermined));
    assert!(!is_microphone_authorized(PermissionStatus::Restricted));
}

#[test]
fn a_failed_request_counts_as_refused() {
    assert!(request_microphone_permission(Ok(true)));
    assert!(!request_microphone_permission(Ok(false)));
    assert!(!request_microphone_permission(Err(PlatformError::WindowHandleUnavailable)));
    assert!(!request_microphone_permission(Err(PlatformError::OperationFailed("x".to_string()))));
}

#[test]
fn platform_error_messages() {
    assert_eq!(PlatformError::PermissionDenied("mic".to_string()).message(), "Permission denied: mic");
    assert_eq!(
        PlatformError::NotSupported("tray".to_string()).message(),
        "Feature not supported on this platform: tray"
    );
    assert_eq!(PlatformError::OperationFailed("x".to_string()).message(), "Platform operation failed: x");
    assert_eq!(PlatformError::WindowHandleUnavailable.message(), "Window handle not available");
}

#[test]
fn linux_capture_devices_by_name() {
    assert!(is_capture_device("pcmC0D0c"));
    assert!(is_capture_device("pcmC1D2c"));
    assert!(is_capture_device("pcmc"));
    // The prefix itself holds a `c`.
    assert!(is_capture_device("pcmC0D0p"));
    assert!(is_capture_device("pcm"));
    assert!(!is_capture_device("controlC0"));
    assert!(!is_capture_device("timer"));
    assert!(!is_capture_device("PCMC0D0c"));
    assert!(!is_capture_device("pc"));
    assert!(!is_capture_device(""));
}

#[test]
fn linux_status_from_the_sound_devices() {
    let platform = LinuxPlatform;
    assert_eq!(platform.check_microphone_permission(None), PermissionStatus::Authorized);
    assert_eq!(platform.check_microphone_permission(Some(&vec![])), PermissionStatus::NotDetermined);
    assert_eq!(
        platform.check_microphone_permission(Some(&names(&["controlC0", "timer", "seq"]))),
        PermissionStatus::NotDetermined
    );
    assert_eq!(
        platform.check_microphone_permission(Some(&names(&["controlC0", "pcmC0D0c", "timer"]))),
        PermissionStatus::Authorized
    );
    for status in [PermissionStatus::Authorized, PermissionStatus::NotDetermined, PermissionStatus::Denied] {
        assert!(matches!(platform.request_microphone_permission(status), Ok(true)));
    }
}

#[test]
fn wayland_by_display_or_session_type() {
    assert!(is_wayland(true, None));
    assert!(is_wayland(true, Some("x11")));
    assert!(is_wayland(false, Some("wayland")));
    assert!(is_wayland(false, Some("xwayland-session")));
    assert!(is_wayland(false, Some("Wayland")));
    assert!(is_wayland(false, Some("WAYLAND")));
    assert!(!is_wayland(false, Some("x11")));
    assert!(!is_wayland(false, Some("waylan")));
    assert!(!is_wayland(false, Some("")));
    assert!(!is_wayland(false, None));
}

#[test]
fn windows_status_from_the_device_listing() {
    let platform = WindowsPlatform;
    assert_eq!(platform.check_microphone_permission(&DeviceListing::Found(2)), PermissionStatus::Authorized);
    assert_eq!(platform.check_microphone_permission(&DeviceListing::Found(0)), PermissionStatus::NotDetermined);
    assert_eq!(
        platform.check_microphone_permission(&DeviceListing::Failed("denied".to_string())),
        PermissionStatus::NotDetermined
    );
    assert!(!platform.should_open_settings(PermissionStatus::Authorized));
    assert!(platform.should_open_settings(PermissionStatus::NotDetermined));
    assert!(platform.should_open_settings(PermissionStatus::Denied));
    assert!(matches!(platform.request_microphone_permission(PermissionStatus::NotDetermined), Ok(true)));
    assert!(matches!(platform.request_microphone_permission(PermissionStatus::Authorized), Ok(true)));
}

#[test]
fn macos_asks_only_when_the_status_is_open() {
    let platform = MacOSPlatform;
    for status in [
        PermissionStatus::Authorized,
        PermissionStatus::Denied,
        PermissionStatus::NotDetermined,
        PermissionStatus::Restricted,
    ] {
        assert_eq!(platform.check_microphone_permission(status), status);
    }
    assert!(matches!(platform.request_microphone_permission(PermissionStatus::Authorized), RequestStep::Answered(true)));
    assert!(matches!(platform.request_microphone_permission(PermissionStatus::Denied), RequestStep::Answered(false)));
    assert!(matches!(platform.request_microphone_permission(PermissionStatus::Restricted), RequestStep::Answered(false)));
    assert!(matches!(platform.request_microphone_permission(PermissionStatus::NotDetermined), RequestStep::AskUser));
    assert!(matches!(platform.user_answered(Ok(true)), Ok(true)));
    assert!(matches!(platform.user_answered(Ok(false)), Ok(false)));
    match platform.user_answered(Err("channel closed".to_string())) {
        Err(PlatformError::OperationFailed(detail)) => assert_eq!(detail, "Permission request failed: channel closed"),
        other => panic!("unexpected outcome: {:?}", other),
    }
}

#[test]
fn permissions_outside_macos_are_always_given() {
    for target_os in [TargetOs::Windows, TargetOs::Linux, TargetOs::Other] {
        for status in [PermissionStatus::Authorized, PermissionStatus::Denied, PermissionStatus::NotDetermined, PermissionStatus::Restricted] {
            assert!(permissions::is_microphone_authorized(target_os, status));
            assert!(permissions::request_microphone_permission(target_os, status, None));
            assert!(permissions::request_microphone_permission(target_os, status, Some(false)));
        }
    }
}

#[test]
fn permissions_on_macos_go_by_the_status() {
    let mac = TargetOs::MacOs;
    assert!(permissions::is_microphone_authorized(mac, PermissionStatus::Authorized));
    assert!(!permissions::is_microphone_authorized(mac, PermissionStatus::Denied));
    assert!(!permissions::is_microphone_authorized(mac, PermissionStatus::NotDetermined));
    assert!(!permissions::is_microphone_authorized(mac, PermissionStatus::Restricted));
    assert!(permissions::request_microphone_permission(mac, PermissionStatus::Authorized, None));
    assert!(!permissions::request_microphone_permission(mac, PermissionStatus::Denied, Some(true)));
    assert!(!permissions::request_microphone_permission(mac, PermissionStatus::Restricted, Some(true)));
    assert!(permissions::request_microphone_permission(mac, PermissionStatus::NotDetermined, Some(true)));
    assert!(!permissions::request_microphone_permission(mac, PermissionStatus::NotDetermined, Some(false)));
    assert!(!permissions::request_microphone_permission(mac, PermissionStatus::NotDetermined, None));
}
