//! Which global-hotkey backend the app runs, and which shortcut triggers a
//! session offers, from the display-server variables that are set.
use vstd::prelude::*;

verus! {

/// The hotkey backend a configuration asks for.
#[derive(Debug, Clone, Copy, PartialEq, Eq, Structural)]
pub enum HotkeyBackendKind {
    Auto,
    Disabled,
    X11,
}

/// Which triggers shortcuts can use in this session.
#[derive(Debug, Clone, Copy, PartialEq, Eq, Structural)]
pub enum ShortcutTriggerCapabilities {
    KeyboardAndSignals,
    SignalsOnly,
}

impl ShortcutTriggerCapabilities {
    /// Whether keyboard shortcuts can be grabbed.
    pub fn keyboard_available(self) -> (b: bool)
        ensures
            b == (self == ShortcutTriggerCapabilities::KeyboardAndSignals),
    {
        match self {
            ShortcutTriggerCapabilities::KeyboardAndSignals => true,
            ShortcutTriggerCapabilities::SignalsOnly => false,
        }
    }
}

/// Whether an environment probe reports `name` as set.
pub open spec fn reports_set<F: Fn(&str) -> bool>(has_env: F, name: &str, set: bool) -> bool {
    call_ensures(has_env, (name,), set)
}

/// What an environment probe says of keyboard grabs: `DISPLAY` is set
/// and, asked only then, `WAYLAND_DISPLAY` is not.
pub open spec fn probe_shows_x11<F: Fn(&str) -> bool>(has_env: F, x11: bool) -> bool {
    exists|d: bool|
        #[trigger] reports_set(has_env, "DISPLAY", d) && if d {
            exists|w: bool| #[trigger] reports_set(has_env, "WAYLAND_DISPLAY", w) && x11 == !w
        } else {
            !x11
        }
}

/// Asks the probe whether `name` is set.
fn probe<F: Fn(&str) -> bool>(has_env: &F, name: &str) -> (b: bool)
    requires
        call_requires(*has_env, (name,)),
    ensures
        reports_set(*has_env, name, b),
{
    has_env(name)
}

/// Whether keyboard grabs work, from an environment probe: `DISPLAY` set
/// and `WAYLAND_DISPLAY` not.
pub fn x11_keyboard_available<F: Fn(&str) -> bool>(has_env: &F) -> (b: bool)
    requires
        forall|name: &str| call_requires(*has_env, (name,)),
    ensures
        probe_shows_x11(*has_env, b),
{
    let d = probe(has_env, "DISPLAY");
    if !d {
        assert(reports_set(*has_env, "DISPLAY", d));
        return false;
    }
    let w = probe(has_env, "WAYLAND_DISPLAY");
    assert(reports_set(*has_env, "WAYLAND_DISPLAY", w));
    assert(reports_set(*has_env, "DISPLAY", d));
    !w
}

/// The backend a configured kind resolves to: `Auto` becomes X11 where
/// keyboard grabs work and disabled elsewhere; the others stay.
pub open spec fn resolved_kind(configured: HotkeyBackendKind, x11: bool) -> HotkeyBackendKind {
    match configured {
        HotkeyBackendKind::Auto => if x11 {
            HotkeyBackendKind::X11
        } else {
            HotkeyBackendKind::Disabled
        },
        other => other,
    }
}

/// Resolves the configured backend kind with an environment probe.
pub fn resolve_backend_kind_with_env<F: Fn(&str) -> bool>(configured: HotkeyBackendKind, has_env: F) -> (k: HotkeyBackendKind)
    requires
        forall|name: &str| call_requires(has_env, (name,)),
    ensures
        configured != HotkeyBackendKind::Auto ==> k == configured,
        configured == HotkeyBackendKind::Auto ==> exists|x11: bool|
            probe_shows_x11(has_env, x11) && k == resolved_kind(configured, x11),
{
    match configured {
        HotkeyBackendKind::Auto => {
            let x11 = x11_keyboard_available(&has_env);
            let k = if x11 {
                HotkeyBackendKind::X11
            } else {
                HotkeyBackendKind::Disabled
            };
            assert(probe_shows_x11(has_env, x11) && k == resolved_kind(configured, x11));
            k
        },
        other => other,
    }
}

/// The triggers a session offers, with an environment probe: keyboard and
/// signals where keyboard grabs work, else signals only.
pub fn shortcut_trigger_capabilities_with_env<F: Fn(&str) -> bool>(has_env: F) -> (c: ShortcutTriggerCapabilities)
    requires
        forall|name: &str| call_requires(has_env, (name,)),
    ensures
        exists|x11: bool|
            probe_shows_x11(has_env, x11) && c == (if x11 {
                ShortcutTriggerCapabilities::KeyboardAndSignals
            } else {
                ShortcutTriggerCapabilities::SignalsOnly
            }),
{
    if x11_keyboard_available(&has_env) {
        ShortcutTriggerCapabilities::KeyboardAndSignals
    } else {
        ShortcutTriggerCapabilities::SignalsOnly
    }
}

/// The name of a backend kind in logs and settings.
pub fn backend_kind_name(backend: HotkeyBackendKind) -> (s: &'static str)
    ensures
        s@ == (match backend {
            HotkeyBackendKind::Auto => "auto"@,
            HotkeyBackendKind::Disabled => "disabled"@,
            HotkeyBackendKind::X11 => "x11"@,
        }),
{
    match backend {
        HotkeyBackendKind::Auto => "auto",
        HotkeyBackendKind::Disabled => "disabled",
        HotkeyBackendKind::X11 => "x11",
    }
}

} // verus!
