use std::time::{Duration, Instant};

use quillspeak::clipboard::PasteShortcut;
use quillspeak::daemon::{
    classify_name_owner_change, current_status_for_config, daemon_status_from_query,
    ensure_paste_request_not_expired, env_flag_value, is_permission_error, parse_paste_shortcut,
    paste_deadline_check, paste_key_sequence, resolve_daemon_status, status_from_device_scan,
    transition_from_evdev_value, DaemonNameEvent, DaemonStatus, HotkeyMethod,
};
use quillspeak::hotkey::KeyTransition;
use quillspeak::shortcut::{KEY_LEFTCTRL, KEY_V};

#[test]
fn classifies_daemon_name_owner_changes() {
    assert_eq!(classify_name_owner_change(false, true), Some(DaemonNameEvent::Appeared));
    assert_eq!(classify_name_owner_change(true, false), Some(DaemonNameEvent::Vanished));
    assert_eq!(classify_name_owner_change(true, true), Some(DaemonNameEvent::Appeared));
    assert_eq!(classify_name_owner_change(false, false), None);
}

#[test]
fn hotkey_method_names_match_app_dbus_contract() {
    assert_eq!(HotkeyMethod::Down.method_name(), "HotkeyDown");
    assert_eq!(HotkeyMethod::Up.method_name(), "HotkeyUp");
}

#[test]
fn evdev_autorepeat_maps_to_repeat_transition() {
    assert_eq!(transition_from_evdev_value(0), KeyTransition::Released);
    assert_eq!(transition_from_evdev_value(1), KeyTransition::Pressed);
    assert_eq!(transition_from_evdev_value(2), KeyTransition::Repeat);
    assert_eq!(transition_from_evdev_value(99), KeyTransition::Repeat);
}

#[test]
fn no_usable_evdev_devices_is_not_configured() {
    assert_eq!(status_from_device_scan(false, 0), DaemonStatus::RunningUnconfigured);
}

#[test]
fn usable_evdev_devices_are_configured() {
    assert_eq!(status_from_device_scan(false, 1), DaemonStatus::RunningConfigured);
}

#[test]
fn permission_error_without_usable_devices_wins() {
    assert_eq!(status_from_device_scan(true, 0), DaemonStatus::PermissionError);
}

#[test]
fn daemon_status_resolution_handles_absence() {
    assert_eq!(
        resolve_daemon_status(Err("no owner".to_string()), false),
        DaemonStatus::NotInstalled
    );
    assert_eq!(
        resolve_daemon_status(Err("no owner".to_string()), true),
        DaemonStatus::InstalledButNotRunning
    );
}

#[test]
fn daemon_status_resolution_handles_running_and_permission_errors() {
    assert_eq!(resolve_daemon_status(Ok(true), false), DaemonStatus::RunningConfigured);
    assert_eq!(
        resolve_daemon_status(Err("AccessDenied".to_string()), true),
        DaemonStatus::PermissionError
    );
}

#[test]
fn status_query_errors_fall_back_to_installation_probe() {
    assert_eq!(
        daemon_status_from_query(Ok(DaemonStatus::RunningUnconfigured), false),
        DaemonStatus::RunningUnconfigured
    );
    assert_eq!(
        daemon_status_from_query(Err("Permission denied".to_string()), false),
        DaemonStatus::PermissionError
    );
    assert_eq!(
        daemon_status_from_query(Err("no reply".to_string()), true),
        DaemonStatus::InstalledButNotRunning
    );
    assert!(is_permission_error("org.freedesktop.DBus.Error.AccessDenied"));
    assert!(!is_permission_error("timeout"));
}

#[test]
fn configured_status_needs_flag_and_config() {
    assert_eq!(current_status_for_config(true, true, true), DaemonStatus::PermissionError);
    assert_eq!(current_status_for_config(false, true, true), DaemonStatus::RunningConfigured);
    assert_eq!(current_status_for_config(false, true, false), DaemonStatus::RunningUnconfigured);
    assert_eq!(current_status_for_config(false, false, true), DaemonStatus::RunningUnconfigured);
}

#[test]
fn ctrl_v_sequence_presses_and_releases_modifier_and_v() {
    assert_eq!(
        paste_key_sequence(),
        vec![(KEY_LEFTCTRL, 1), (KEY_V, 1), (KEY_V, 0), (KEY_LEFTCTRL, 0)]
    );
    assert_eq!((KEY_LEFTCTRL, KEY_V), (29, 47));
}

#[test]
fn paste_deadline_accepts_future_instant() {
    let deadline = Instant::now() + Duration::from_secs(1);

    assert!(ensure_paste_request_not_expired(deadline, "during test").is_ok());
}

#[test]
fn paste_deadline_rejects_expired_instant() {
    let deadline = Instant::now()
        .checked_sub(Duration::from_millis(1))
        .expect("test instant should support small subtraction");

    let error = ensure_paste_request_not_expired(deadline, "during test")
        .expect_err("expired paste deadline should be rejected");

    assert!(error.contains("paste request expired"));
}

#[test]
fn paste_deadline_message_names_the_step() {
    assert_eq!(
        paste_deadline_check(true, "before emitting paste shortcut"),
        Err("paste request expired before emitting paste shortcut".to_string())
    );
    assert_eq!(paste_deadline_check(false, "anything"), Ok(()));
}

#[test]
fn parse_paste_shortcut_accepts_supported_wire_values() {
    assert_eq!(parse_paste_shortcut("ctrl_v"), Some(PasteShortcut::CtrlV));
    assert_eq!(parse_paste_shortcut("ctrl_shift_v"), Some(PasteShortcut::CtrlShiftV));
    assert_eq!(parse_paste_shortcut(" ctrl_shift_v "), Some(PasteShortcut::CtrlShiftV));
}

#[test]
fn parse_paste_shortcut_rejects_unsupported_wire_values() {
    assert_eq!(parse_paste_shortcut(""), None);
    assert_eq!(parse_paste_shortcut("ctrl-c"), None);
    assert_eq!(parse_paste_shortcut("Ctrl+V"), None);
}

#[test]
fn env_flags_turn_on_unless_negative() {
    assert!(!env_flag_value(None));
    assert!(!env_flag_value(Some("  ")));
    assert!(!env_flag_value(Some(" Off ")));
    assert!(!env_flag_value(Some("FALSE")));
    assert!(env_flag_value(Some("1")));
    assert!(env_flag_value(Some("debug")));
}
