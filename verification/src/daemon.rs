//! The input daemon: its status, the key events it reads, the chords it
//! watches and the messages it sends to the app.
use vstd::prelude::*;

use std::time::Instant;

use crate::clipboard::PasteShortcut;
use crate::clock::{now, reached};
use crate::hotkey::KeyTransition;
use crate::shortcut::{KEY_LEFTCTRL, KEY_V};
use crate::text::{chars_equal, chars_of, contains_chars, has_infix, push_str, string_from_chars, trim, trim_chars};

verus! {

/// What the app knows of the input daemon.
#[derive(Debug, Clone, Copy, PartialEq, Eq, Structural)]
pub enum DaemonStatus {
    NotInstalled,
    InstalledButNotRunning,
    RunningUnconfigured,
    RunningConfigured,
    PermissionError,
}

/// Whether an error text reports missing permissions.
pub open spec fn mentions_permission(text: Seq<char>) -> bool {
    has_infix(text, "AccessDenied"@) || has_infix(text, "Permission"@) || has_infix(
        text,
        "permission"@,
    )
}

/// Whether an error text reports missing permissions.
pub fn is_permission_error(text: &str) -> (b: bool)
    ensures
        b == mentions_permission(text@),
{
    let t = chars_of(text);
    let a = chars_of("AccessDenied");
    let p = chars_of("Permission");
    let q = chars_of("permission");
    contains_chars(t.as_slice(), a.as_slice()) || contains_chars(t.as_slice(), p.as_slice())
        || contains_chars(t.as_slice(), q.as_slice())
}

/// The daemon status that a D-Bus ping and the installation probe give:
/// running when the ping answers, permission error when the ping failed
/// for want of access, else installed or not.
pub fn resolve_daemon_status(ping_result: Result<bool, String>, installed: bool) -> (s: DaemonStatus)
    ensures
        s == match ping_result {
            Ok(true) => DaemonStatus::RunningConfigured,
            Ok(false) => DaemonStatus::InstalledButNotRunning,
            Err(e) => if has_infix(e@, "AccessDenied"@) || has_infix(e@, "permission"@) {
                DaemonStatus::PermissionError
            } else if installed {
                DaemonStatus::InstalledButNotRunning
            } else {
                DaemonStatus::NotInstalled
            },
        },
{
    match ping_result {
        Ok(true) => DaemonStatus::RunningConfigured,
        Ok(false) => DaemonStatus::InstalledButNotRunning,
        Err(error) => {
            let t = chars_of(error.as_str());
            let a = chars_of("AccessDenied");
            let q = chars_of("permission");
            if contains_chars(t.as_slice(), a.as_slice()) || contains_chars(
                t.as_slice(),
                q.as_slice(),
            ) {
                DaemonStatus::PermissionError
            } else if installed {
                DaemonStatus::InstalledButNotRunning
            } else {
                DaemonStatus::NotInstalled
            }
        },
    }
}

/// What a change of the daemon's bus name owner means.
#[derive(Debug, Clone, Copy, PartialEq, Eq, Structural)]
pub enum DaemonNameEvent {
    Appeared,
    Vanished,
}

/// A new owner means the daemon appeared (also when it replaced an old
/// one); losing the owner means it vanished.
pub fn classify_name_owner_change(old_owner_present: bool, new_owner_present: bool) -> (r: Option<
    DaemonNameEvent,
>)
    ensures
        r == (if new_owner_present {
            Some(DaemonNameEvent::Appeared)
        } else if old_owner_present {
            Some(DaemonNameEvent::Vanished)
        } else {
            None
        }),
{
    if new_owner_present {
        Some(DaemonNameEvent::Appeared)
    } else if old_owner_present {
        Some(DaemonNameEvent::Vanished)
    } else {
        None
    }
}

/// The status after probing the keyboard devices: a permission error
/// wins, then whether any usable device was found.
pub fn status_from_device_scan(permission_error: bool, device_count: usize) -> (s: DaemonStatus)
    ensures
        s == (if permission_error {
            DaemonStatus::PermissionError
        } else if device_count == 0 {
            DaemonStatus::RunningUnconfigured
        } else {
            DaemonStatus::RunningConfigured
        }),
{
    if permission_error {
        DaemonStatus::PermissionError
    } else if device_count == 0 {
        DaemonStatus::RunningUnconfigured
    } else {
        DaemonStatus::RunningConfigured
    }
}

/// The status the daemon reports from its flags and whether the app sent
/// a shortcut configuration.
pub fn current_status_for_config(permission_error: bool, configured: bool, config_present: bool) -> (s: DaemonStatus)
    ensures
        s == (if permission_error {
            DaemonStatus::PermissionError
        } else if config_present && configured {
            DaemonStatus::RunningConfigured
        } else {
            DaemonStatus::RunningUnconfigured
        }),
{
    if permission_error {
        DaemonStatus::PermissionError
    } else if config_present && configured {
        DaemonStatus::RunningConfigured
    } else {
        DaemonStatus::RunningUnconfigured
    }
}

/// The key transition of an evdev key event value: 0 release, 1 press,
/// anything else (2 is auto-repeat) a repeat.
pub fn transition_from_evdev_value(value: i32) -> (t: KeyTransition)
    ensures
        t == (if value == 0 {
            KeyTransition::Released
        } else if value == 1 {
            KeyTransition::Pressed
        } else {
            KeyTransition::Repeat
        }),
{
    if value == 0 {
        KeyTransition::Released
    } else if value == 1 {
        KeyTransition::Pressed
    } else {
        KeyTransition::Repeat
    }
}

/// Which D-Bus method a hotkey message calls on the app.
#[derive(Debug, Clone, Copy, PartialEq, Eq, Structural)]
pub enum HotkeyMethod {
    Down,
    Up,
}

impl HotkeyMethod {
    /// The method name on the app's D-Bus interface.
    pub fn method_name(self) -> (s: &'static str)
        ensures
            s@ == (match self {
                HotkeyMethod::Down => "HotkeyDown"@,
                HotkeyMethod::Up => "HotkeyUp"@,
            }),
    {
        match self {
            HotkeyMethod::Down => "HotkeyDown",
            HotkeyMethod::Up => "HotkeyUp",
        }
    }
}

/// Whether an environment flag value turns a feature on: set, and not
/// empty, `0`, `false`, `off` or `no` in any ASCII case after trimming.
pub open spec fn flag_on(value: Option<Seq<char>>) -> bool {
    match value {
        None => false,
        Some(v) => {
            let t = trim(v);
            !(t.len() == 0 || crate::clipboard::eq_ignore_ascii_case(t, "0"@)
                || crate::clipboard::eq_ignore_ascii_case(t, "false"@)
                || crate::clipboard::eq_ignore_ascii_case(t, "off"@)
                || crate::clipboard::eq_ignore_ascii_case(t, "no"@))
        },
    }
}

/// Whether an environment flag value turns a feature on.
pub fn env_flag_value(value: Option<&str>) -> (b: bool)
    ensures
        b == flag_on(
            match value {
                Some(s) => Some(s@),
                None => None,
            },
        ),
{
    match value {
        None => false,
        Some(s) => {
            let v = chars_of(s);
            let t = trim_chars(v.as_slice());
            if t.len() == 0 {
                return false;
            }
            let zero = chars_of("0");
            let f = chars_of("false");
            let off = chars_of("off");
            let no = chars_of("no");
            !(crate::clipboard::equal_ignore_ascii_case(t.as_slice(), zero.as_slice())
                || crate::clipboard::equal_ignore_ascii_case(t.as_slice(), f.as_slice())
                || crate::clipboard::equal_ignore_ascii_case(t.as_slice(), off.as_slice())
                || crate::clipboard::equal_ignore_ascii_case(t.as_slice(), no.as_slice()))
        },
    }
}

/// The daemon's status as the app sees it from a status query: the
/// daemon's answer, or, where the query failed, a permission error when the
/// error says so, else whether the daemon looks installed.
pub fn daemon_status_from_query(query: Result<DaemonStatus, String>, installed: bool) -> (s: DaemonStatus)
    ensures
        s == match query {
            Ok(status) => status,
            Err(e) => if mentions_permission(e@) {
                DaemonStatus::PermissionError
            } else if installed {
                DaemonStatus::InstalledButNotRunning
            } else {
                DaemonStatus::NotInstalled
            },
        },
{
    match query {
        Ok(status) => status,
        Err(error) => {
            if is_permission_error(error.as_str()) {
                DaemonStatus::PermissionError
            } else if installed {
                DaemonStatus::InstalledButNotRunning
            } else {
                DaemonStatus::NotInstalled
            }
        },
    }
}

/// The key events that paste with Ctrl+V: press Ctrl, press V, release V,
/// release Ctrl.
pub fn paste_key_sequence() -> (v: Vec<(u16, i32)>)
    ensures
        v@ == seq![(KEY_LEFTCTRL, 1i32), (KEY_V, 1i32), (KEY_V, 0i32), (KEY_LEFTCTRL, 0i32)],
{
    let mut v: Vec<(u16, i32)> = Vec::new();
    v.push((KEY_LEFTCTRL, 1));
    v.push((KEY_V, 1));
    v.push((KEY_V, 0));
    v.push((KEY_LEFTCTRL, 0));
    v
}

/// The message of a paste request that came too late.
pub open spec fn paste_expired_message(context: Seq<char>) -> Seq<char> {
    "paste request expired "@ + context
}

/// Refuses a paste request whose deadline has passed.
pub fn paste_deadline_check(expired: bool, context: &str) -> (r: Result<(), String>)
    ensures
        !expired ==> r is Ok,
        expired ==> (r matches Err(e) && e@ == paste_expired_message(context@)),
{
    if expired {
        let mut out: Vec<char> = Vec::new();
        push_str(&mut out, "paste request expired ");
        push_str(&mut out, context);
        return Err(string_from_chars(out.as_slice()));
    }
    Ok(())
}

/// Refuses a paste request once the clock has reached its deadline; which
/// of the two comes rests on the clock.
pub fn ensure_paste_request_not_expired(deadline: Instant, context: &str) -> (r: Result<(), String>)
    ensures
        r is Ok || (r matches Err(e) && e@ == paste_expired_message(context@)),
{
    let t = now();
    paste_deadline_check(reached(t, deadline), context)
}

/// The paste chord named by a wire value, spaces around it ignored.
pub open spec fn paste_shortcut_from_wire(value: Seq<char>) -> Option<PasteShortcut> {
    let t = trim(value);
    if t == "ctrl_v"@ {
        Some(PasteShortcut::CtrlV)
    } else if t == "ctrl_shift_v"@ {
        Some(PasteShortcut::CtrlShiftV)
    } else {
        None
    }
}

/// Reads the paste chord that the app asks the daemon for.
pub fn parse_paste_shortcut(value: &str) -> (r: Option<PasteShortcut>)
    ensures
        r == paste_shortcut_from_wire(value@),
{
    let v = chars_of(value);
    let t = trim_chars(v.as_slice());
    if chars_equal(t.as_slice(), chars_of("ctrl_v").as_slice()) {
        Some(PasteShortcut::CtrlV)
    } else if chars_equal(t.as_slice(), chars_of("ctrl_shift_v").as_slice()) {
        Some(PasteShortcut::CtrlShiftV)
    } else {
        None
    }
}

} // verus!
