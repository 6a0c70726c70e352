use quillspeak::backend::{
    backend_kind_name, resolve_backend_kind_with_env, shortcut_trigger_capabilities_with_env,
    x11_keyboard_available, HotkeyBackendKind, ShortcutTriggerCapabilities,
};

#[test]
fn trigger_capabilities_match_display_server() {
    assert_eq!(
        shortcut_trigger_capabilities_with_env(|name: &str| matches!(name, "DISPLAY")),
        ShortcutTriggerCapabilities::KeyboardAndSignals
    );
    assert_eq!(
        shortcut_trigger_capabilities_with_env(|name: &str| {
            matches!(name, "DISPLAY" | "WAYLAND_DISPLAY")
        }),
        ShortcutTriggerCapabilities::SignalsOnly
    );
    assert_eq!(
        shortcut_trigger_capabilities_with_env(|_: &str| false),
        ShortcutTriggerCapabilities::SignalsOnly
    );
}

#[test]
fn explicit_disabled_backend_stays_disabled() {
    let backend = resolve_backend_kind_with_env(HotkeyBackendKind::Disabled, |_: &str| true);
    assert_eq!(backend_kind_name(HotkeyBackendKind::Disabled), "disabled");
    assert_eq!(backend_kind_name(backend), "disabled");
}

#[test]
fn auto_backend_uses_x11_when_only_display_is_set() {
    let backend =
        resolve_backend_kind_with_env(HotkeyBackendKind::Auto, |name: &str| matches!(name, "DISPLAY"));

    assert_eq!(backend, HotkeyBackendKind::X11);
}

#[test]
fn auto_backend_is_disabled_on_wayland() {
    let backend = resolve_backend_kind_with_env(HotkeyBackendKind::Auto, |name: &str| {
        matches!(name, "DISPLAY" | "WAYLAND_DISPLAY")
    });

    assert_eq!(backend, HotkeyBackendKind::Disabled);
}

#[test]
fn auto_backend_is_disabled_without_display() {
    let backend = resolve_backend_kind_with_env(HotkeyBackendKind::Auto, |_: &str| false);

    assert_eq!(backend, HotkeyBackendKind::Disabled);
}

#[test]
fn configured_and_effective_backend_names_are_separate() {
    assert_eq!(backend_kind_name(HotkeyBackendKind::Auto), "auto");
    assert_eq!(
        backend_kind_name(resolve_backend_kind_with_env(HotkeyBackendKind::Auto, |name: &str| {
            matches!(name, "WAYLAND_DISPLAY")
        })),
        "disabled"
    );
}

#[test]
fn explicit_x11_backend_stays_x11() {
    let backend = resolve_backend_kind_with_env(HotkeyBackendKind::X11, |_: &str| false);

    assert_eq!(backend, HotkeyBackendKind::X11);
}

#[test]
fn keyboard_availability_follows_capabilities() {
    assert!(ShortcutTriggerCapabilities::KeyboardAndSignals.keyboard_available());
    assert!(!ShortcutTriggerCapabilities::SignalsOnly.keyboard_available());
    assert!(x11_keyboard_available(&|name: &str| name == "DISPLAY"));
    assert!(!x11_keyboard_available(&|_: &str| true));
}
