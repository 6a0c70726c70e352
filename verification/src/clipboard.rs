//! Delivery of recognized text through the clipboard: which tools to run,
//! which keys to send for pasting, and what each delivery waits for.
use vstd::prelude::*;
use vstd::string::StringSliceAdditionalSpecFns;

use crate::text::{chars_equal, chars_of, decimal, parse_u16, push_decimal, push_str, parsed_u16, slice_chars, split_words, string_from_chars, trim, trim_chars, words};

verus! {

/// Whether output was handed to the output worker, and what finishes it.
#[derive(Debug, Clone, Copy, PartialEq, Eq, Structural)]
pub enum OutputDelivery {
    NotQueued,
    Queued(OutputCompletion),
}

/// What finishes a queued output.
#[derive(Debug, Clone, Copy, PartialEq, Eq, Structural)]
pub enum OutputCompletion {
    Script,
    ClipboardCopy,
    ClipboardPaste,
}

/// The key chord that pastes the clipboard.
#[derive(Debug, Clone, Copy, PartialEq, Eq, Structural)]
pub enum PasteShortcut {
    CtrlV,
    CtrlShiftV,
    Custom,
}

/// The clipboard settings of a shortcut's output.
#[derive(Debug, Clone, PartialEq, Eq)]
pub struct OutputAction {
    pub copy_to_clipboard: bool,
    pub paste_from_clipboard: bool,
    pub paste_shortcut: PasteShortcut,
    pub paste_custom_x11: String,
    pub paste_custom_wayland: String,
}

/// The text to put on the clipboard: the trimmed text, when the output
/// copies or pastes and the trimmed text is not empty.
pub open spec fn transport_text(copy: bool, paste: bool, text: Seq<char>) -> Option<Seq<char>> {
    if !copy && !paste {
        None
    } else if trim(text).len() == 0 {
        None
    } else {
        Some(trim(text))
    }
}

/// The text to put on the clipboard for an output, if any.
pub fn clipboard_transport_text_for_output(output: &OutputAction, text: &str) -> (r: Option<String>)
    ensures
        match transport_text(output.copy_to_clipboard, output.paste_from_clipboard, text@) {
            Some(t) => r is Some && r->0@ == t,
            None => r is None,
        },
{
    if !output.copy_to_clipboard && !output.paste_from_clipboard {
        return None;
    }
    let v = chars_of(text);
    let t = trim_chars(v.as_slice());
    if t.len() == 0 {
        None
    } else {
        Some(string_from_chars(t.as_slice()))
    }
}

/// What finishes a clipboard delivery: the paste when one is requested.
pub fn clipboard_completion_for_output(output: &OutputAction) -> (c: OutputCompletion)
    ensures
        c == (if output.paste_from_clipboard {
            OutputCompletion::ClipboardPaste
        } else {
            OutputCompletion::ClipboardCopy
        }),
{
    if output.paste_from_clipboard {
        OutputCompletion::ClipboardPaste
    } else {
        OutputCompletion::ClipboardCopy
    }
}

/// Where clipboard text came from.
#[derive(Debug, Clone, PartialEq, Eq)]
pub enum ClipboardCopySource {
    Transcription { recording_id: u64, shortcut_id: String },
    ScriptStdout { recording_id: u64, shortcut_id: String, script_path: String },
    History { recording_id: u64, shortcut_id: String },
}

impl ClipboardCopySource {
    /// The recording the text belongs to.
    pub fn recording_id(&self) -> (r: u64)
        ensures
            r == match self {
                ClipboardCopySource::Transcription { recording_id, .. } => *recording_id,
                ClipboardCopySource::ScriptStdout { recording_id, .. } => *recording_id,
                ClipboardCopySource::History { recording_id, .. } => *recording_id,
            },
    {
        match self {
            ClipboardCopySource::Transcription { recording_id, .. } => *recording_id,
            ClipboardCopySource::ScriptStdout { recording_id, .. } => *recording_id,
            ClipboardCopySource::History { recording_id, .. } => *recording_id,
        }
    }

    /// The shortcut the text belongs to.
    pub fn shortcut_id(&self) -> (r: &str)
        ensures
            r@ == match self {
                ClipboardCopySource::Transcription { shortcut_id, .. } => shortcut_id@,
                ClipboardCopySource::ScriptStdout { shortcut_id, .. } => shortcut_id@,
                ClipboardCopySource::History { shortcut_id, .. } => shortcut_id@,
            },
    {
        match self {
            ClipboardCopySource::Transcription { shortcut_id, .. } => shortcut_id.as_str(),
            ClipboardCopySource::ScriptStdout { shortcut_id, .. } => shortcut_id.as_str(),
            ClipboardCopySource::History { shortcut_id, .. } => shortcut_id.as_str(),
        }
    }

    /// The source's name in logs.
    pub fn kind(&self) -> (r: &'static str)
        ensures
            r@ == match self {
                ClipboardCopySource::Transcription { .. } => "transcription"@,
                ClipboardCopySource::ScriptStdout { .. } => "script_stdout"@,
                ClipboardCopySource::History { .. } => "history"@,
            },
    {
        match self {
            ClipboardCopySource::Transcription { .. } => "transcription",
            ClipboardCopySource::ScriptStdout { .. } => "script_stdout",
            ClipboardCopySource::History { .. } => "history",
        }
    }

    /// The script whose output it is, for script output.
    pub fn script_path(&self) -> (r: Option<&str>)
        ensures
            match self {
                ClipboardCopySource::ScriptStdout { script_path, .. } => r is Some && r->0@
                    == script_path@,
                _ => r is None,
            },
    {
        match self {
            ClipboardCopySource::ScriptStdout { script_path, .. } => Some(script_path.as_str()),
            _ => None,
        }
    }
}

/// The clipboard tool family of the session.
#[derive(Debug, Clone, Copy, PartialEq, Eq, Structural)]
pub enum ClipboardBackend {
    Wayland,
    X11,
}

impl ClipboardBackend {
    /// The backend's name in logs.
    pub fn as_str(self) -> (r: &'static str)
        ensures
            r@ == match self {
                ClipboardBackend::Wayland => "wayland-wl-copy"@,
                ClipboardBackend::X11 => "x11-xclip"@,
            },
    {
        match self {
            ClipboardBackend::Wayland => "wayland-wl-copy",
            ClipboardBackend::X11 => "x11-xclip",
        }
    }
}

/// A finished clipboard copy: the backend that did it and the size of the
/// text, in characters and in UTF-8 bytes.
#[derive(Debug, Clone, Copy, PartialEq, Eq, Structural)]
pub struct ClipboardCopyOutcome {
    pub backend: ClipboardBackend,
    pub text_chars: usize,
    pub text_bytes: usize,
}

impl ClipboardCopyOutcome {
    /// The outcome of copying `text` through `backend`.
    pub fn for_text(backend: ClipboardBackend, text: &str) -> (o: Self)
        ensures
            o.backend == backend,
            o.text_chars == text@.len(),
            o.text_bytes == vstd::utf8::encode_utf8(text@).len() as usize,
    {
        let chars = chars_of(text);
        ClipboardCopyOutcome { backend, text_chars: chars.len(), text_bytes: text.len() }
    }
}

/// The commands that copy and read the clipboard, and their package.
#[derive(Debug, Clone, Copy, PartialEq, Eq)]
pub struct ClipboardCommands {
    pub copy: &'static str,
    pub paste: &'static str,
    pub package_hint: &'static str,
}

/// The clipboard commands of a backend.
pub fn clipboard_commands(backend: ClipboardBackend) -> (c: ClipboardCommands)
    ensures
        backend == ClipboardBackend::Wayland ==> c.copy@ == "wl-copy"@ && c.paste@ == "wl-paste"@
            && c.package_hint@ == "wl-clipboard"@,
        backend == ClipboardBackend::X11 ==> c.copy@ == "xclip"@ && c.paste@ == "xclip"@
            && c.package_hint@ == "xclip"@,
{
    match backend {
        ClipboardBackend::Wayland => ClipboardCommands {
            copy: "wl-copy",
            paste: "wl-paste",
            package_hint: "wl-clipboard",
        },
        ClipboardBackend::X11 => ClipboardCommands {
            copy: "xclip",
            paste: "xclip",
            package_hint: "xclip",
        },
    }
}

/// The MIME type of text on the Wayland clipboard.
pub const WAYLAND_TEXT_MIME: &'static str = "text/plain;charset=utf-8";

/// The arguments of `wl-copy`.
pub fn wayland_copy_args() -> (a: [&'static str; 3])
    ensures
        a[0]@ == "--type"@,
        a[1]@ == "text/plain;charset=utf-8"@,
        a[2]@ == "--"@,
{
    ["--type", "text/plain;charset=utf-8", "--"]
}

/// The arguments of `wl-paste`.
pub fn wayland_paste_args() -> (a: [&'static str; 3])
    ensures
        a[0]@ == "--no-newline"@,
        a[1]@ == "--type"@,
        a[2]@ == "text/plain;charset=utf-8"@,
{
    ["--no-newline", "--type", "text/plain;charset=utf-8"]
}

/// Which tool a paste key event went wrong for.
#[derive(Debug, Clone, PartialEq, Eq)]
pub enum ClipboardError {
    /// The custom xdotool key sequence is empty.
    EmptyXdotoolShortcut,
    /// The custom ydotool key sequence is empty.
    EmptyYdotoolShortcut,
    /// A ydotool key event is not `keycode:pressed`.
    MissingKeyState(String),
    /// The keycode of a ydotool key event is not a positive `u16`.
    InvalidKeycode(String),
    /// The key state of a ydotool key event is not 0 or 1.
    InvalidKeyState(String),
    /// No Wayland or X11 display is set.
    NoDisplay,
    /// The clipboard did not read back what was copied.
    Mismatch {
        backend: ClipboardBackend,
        expected_chars: usize,
        expected_bytes: usize,
        actual_chars: usize,
        actual_bytes: usize,
    },
}

/// How to paste the clipboard after copying.
#[derive(Debug, Clone, PartialEq, Eq)]
pub struct PasteRequest {
    pub shortcut: PasteShortcut,
    pub custom_x11: String,
    pub custom_wayland: String,
}

impl PasteRequest {
    /// The paste settings of an output.
    pub fn from_output(output: &OutputAction) -> (r: Self)
        ensures
            r.shortcut == output.paste_shortcut,
            r.custom_x11@ == output.paste_custom_x11@,
            r.custom_wayland@ == output.paste_custom_wayland@,
    {
        PasteRequest {
            shortcut: output.paste_shortcut,
            custom_x11: output.paste_custom_x11.clone(),
            custom_wayland: output.paste_custom_wayland.clone(),
        }
    }
}

fn strings_of(parts: Vec<Vec<char>>) -> (r: Vec<String>)
    ensures
        r@.map_values(|s: String| s@) == parts@.map_values(|p: Vec<char>| p@),
{
    let mut r: Vec<String> = Vec::new();
    let mut i: usize = 0;
    while i < parts.len()
        invariant
            i <= parts@.len(),
            r@.map_values(|s: String| s@) == parts@.map_values(|p: Vec<char>| p@).subrange(
                0,
                i as int,
            ),
        decreases parts@.len() - i,
    {
        let ghost before = r@;
        let s = string_from_chars(parts[i].as_slice());
        r.push(s);
        assert(r@.map_values(|s: String| s@) =~= before.map_values(|s: String| s@).push(s@));
        assert(parts@.map_values(|p: Vec<char>| p@).subrange(0, i + 1) =~= parts@.map_values(
            |p: Vec<char>| p@,
        ).subrange(0, i as int).push(parts@[i as int]@));
        i = i + 1;
    }
    assert(parts@.map_values(|p: Vec<char>| p@).subrange(0, i as int) =~= parts@.map_values(
        |p: Vec<char>| p@,
    ));
    r
}

fn strings_from_strs(parts: &[&str]) -> (r: Vec<String>)
    ensures
        r@.map_values(|s: String| s@) == parts@.map_values(|p: &str| p@),
{
    let mut r: Vec<String> = Vec::new();
    let mut i: usize = 0;
    while i < parts.len()
        invariant
            i <= parts@.len(),
            r@.map_values(|s: String| s@) == parts@.map_values(|p: &str| p@).subrange(0, i as int),
        decreases parts@.len() - i,
    {
        let ghost before = r@;
        let s = parts[i].to_owned();
        r.push(s);
        assert(r@.map_values(|s: String| s@) =~= before.map_values(|s: String| s@).push(s@));
        assert(parts@.map_values(|p: &str| p@).subrange(0, i + 1) =~= parts@.map_values(
            |p: &str| p@,
        ).subrange(0, i as int).push(parts@[i as int]@));
        i = i + 1;
    }
    assert(parts@.map_values(|p: &str| p@).subrange(0, i as int) =~= parts@.map_values(
        |p: &str| p@,
    ));
    r
}

/// The key sequences given to `xdotool key` for a paste request.
pub open spec fn xdotool_sequences(shortcut: PasteShortcut, custom: Seq<char>) -> Seq<Seq<char>> {
    match shortcut {
        PasteShortcut::CtrlV => seq!["ctrl+v"@],
        PasteShortcut::CtrlShiftV => seq!["ctrl+shift+v"@],
        PasteShortcut::Custom => words(custom),
    }
}

/// The key sequences for `xdotool key`; a custom sequence must not be empty.
pub fn xdotool_key_sequences(request: &PasteRequest) -> (r: Result<Vec<String>, ClipboardError>)
    ensures
        xdotool_sequences(request.shortcut, request.custom_x11@).len() == 0 ==> r == Err::<
            Vec<String>,
            ClipboardError,
        >(ClipboardError::EmptyXdotoolShortcut),
        xdotool_sequences(request.shortcut, request.custom_x11@).len() > 0 ==> r is Ok
            && r->Ok_0@.map_values(|s: String| s@) == xdotool_sequences(
            request.shortcut,
            request.custom_x11@,
        ),
{
    let sequences = match request.shortcut {
        PasteShortcut::CtrlV => strings_from_strs(&["ctrl+v"]),
        PasteShortcut::CtrlShiftV => strings_from_strs(&["ctrl+shift+v"]),
        PasteShortcut::Custom => {
            let v = chars_of(request.custom_x11.as_str());
            strings_of(split_words(v.as_slice()))
        },
    };
    assert(sequences@.map_values(|s: String| s@) =~= xdotool_sequences(
        request.shortcut,
        request.custom_x11@,
    ));
    if sequences.len() == 0 {
        return Err(ClipboardError::EmptyXdotoolShortcut);
    }
    Ok(sequences)
}

/// The first position of `c` in `s`, if any.
pub open spec fn first_index_of(s: Seq<char>, c: char) -> Option<int> {
    if exists|i: int| 0 <= i < s.len() && s[i] == c && (forall|j: int| 0 <= j < i ==> s[j] != c) {
        Some(choose|i: int| 0 <= i < s.len() && s[i] == c && (forall|j: int| 0 <= j < i ==> s[j] != c))
    } else {
        None
    }
}

fn find_char(v: &[char], c: char) -> (r: Option<usize>)
    ensures
        match r {
            Some(i) => i < v@.len() && first_index_of(v@, c) == Some(i as int),
            None => first_index_of(v@, c) is None,
        },
{
    let mut i: usize = 0;
    while i < v.len()
        invariant
            i <= v@.len(),
            forall|j: int| 0 <= j < i ==> v@[j] != c,
        decreases v@.len() - i,
    {
        if v[i] == c {
            proof {
                let k = choose|k: int| 0 <= k < v@.len() && v@[k] == c && (forall|j: int| 0 <= j < k ==> v@[j] != c);
                if k < i {
                } else if k > i {
                    assert(v@[i as int] != c);
                }
                assert(k == i);
            }
            return Some(i);
        }
        i = i + 1;
    }
    None
}

/// How a ydotool key event `keycode:pressed` fares.
pub enum KeyEventCheck {
    Valid,
    MissingKeyState,
    InvalidKeycode,
    InvalidKeyState,
}

/// The check of one ydotool key event: a colon, a positive `u16` keycode
/// before the first colon, and `0` or `1` after it.
pub open spec fn key_event_check(e: Seq<char>) -> KeyEventCheck {
    match first_index_of(e, ':') {
        None => KeyEventCheck::MissingKeyState,
        Some(i) => {
            let code = parsed_u16(e.subrange(0, i));
            let state = e.subrange(i + 1, e.len() as int);
            if code is None || code == Some(0u16) {
                KeyEventCheck::InvalidKeycode
            } else if state == "0"@ || state == "1"@ {
                KeyEventCheck::Valid
            } else {
                KeyEventCheck::InvalidKeyState
            }
        },
    }
}

/// Whether a validation result reports the check of `e`.
pub open spec fn reports_check(r: Result<(), ClipboardError>, e: Seq<char>) -> bool {
    match key_event_check(e) {
        KeyEventCheck::Valid => r is Ok,
        KeyEventCheck::MissingKeyState => r is Err && r->Err_0 is MissingKeyState
            && r->Err_0->MissingKeyState_0@ == e,
        KeyEventCheck::InvalidKeycode => r is Err && r->Err_0 is InvalidKeycode
            && r->Err_0->InvalidKeycode_0@ == e,
        KeyEventCheck::InvalidKeyState => r is Err && r->Err_0 is InvalidKeyState
            && r->Err_0->InvalidKeyState_0@ == e,
    }
}

/// Checks one ydotool key event of the form `keycode:pressed`.
pub fn validate_ydotool_key_event(event: &str) -> (r: Result<(), ClipboardError>)
    ensures
        reports_check(r, event@),
{
    let v = chars_of(event);
    let colon = match find_char(v.as_slice(), ':') {
        Some(i) => i,
        None => {
            return Err(ClipboardError::MissingKeyState(event.to_owned()));
        },
    };
    let code_chars = slice_chars(v.as_slice(), 0, colon);
    match parse_u16(code_chars.as_slice()) {
        None => {
            return Err(ClipboardError::InvalidKeycode(event.to_owned()));
        },
        Some(code) => {
            if code == 0 {
                return Err(ClipboardError::InvalidKeycode(event.to_owned()));
            }
        },
    }
    let n = v.len();
    let state = slice_chars(v.as_slice(), colon + 1, n);
    let zero = chars_of("0");
    let one = chars_of("1");
    if chars_equal(state.as_slice(), zero.as_slice()) || chars_equal(
        state.as_slice(),
        one.as_slice(),
    ) {
        Ok(())
    } else {
        Err(ClipboardError::InvalidKeyState(event.to_owned()))
    }
}

/// The `Debug` text of a string: in double quotes, with escapes.
pub uninterp spec fn str_debug_text(s: Seq<char>) -> Seq<char>;

/// The `Debug` text of a string (`<str as Debug>::fmt`, through
/// `format!`).
#[verifier::external_body]
fn str_debug(s: &str) -> (r: String)
    ensures
        r@ == str_debug_text(s@),
{
    format!("{s:?}")
}

/// Whether the keycode before the first colon of a key event reads as 0.
pub open spec fn keycode_is_zero(e: Seq<char>) -> bool {
    match first_index_of(e, ':') {
        Some(i) => parsed_u16(e.subrange(0, i)) == Some(0u16),
        None => false,
    }
}

/// The name of a clipboard backend in messages.
pub open spec fn backend_text(b: ClipboardBackend) -> Seq<char> {
    match b {
        ClipboardBackend::Wayland => "wayland-wl-copy"@,
        ClipboardBackend::X11 => "x11-xclip"@,
    }
}

/// The message the app shows for a clipboard error.
pub open spec fn error_text(e: ClipboardError) -> Seq<char> {
    match e {
        ClipboardError::EmptyXdotoolShortcut => "custom xdotool paste shortcut is empty"@,
        ClipboardError::EmptyYdotoolShortcut => "custom ydotool paste shortcut is empty"@,
        ClipboardError::MissingKeyState(ev) => "invalid ydotool key event "@ + str_debug_text(ev@)
            + "; expected keycode:pressed"@,
        ClipboardError::InvalidKeycode(ev) => "invalid ydotool keycode in "@ + str_debug_text(ev@)
            + if keycode_is_zero(ev@) {
            "; keycode must be positive"@
        } else {
            Seq::<char>::empty()
        },
        ClipboardError::InvalidKeyState(ev) => "invalid ydotool key state in "@ + str_debug_text(
            ev@,
        ) + "; expected 0 or 1"@,
        ClipboardError::NoDisplay => "no supported clipboard backend detected; WAYLAND_DISPLAY and DISPLAY are unset"@,
        ClipboardError::Mismatch {
            backend,
            expected_chars,
            expected_bytes,
            actual_chars,
            actual_bytes,
        } => "clipboard verification mismatch for "@ + backend_text(backend) + ": expected "@
            + decimal(expected_chars as nat) + " chars/"@ + decimal(expected_bytes as nat)
            + " bytes, got "@ + decimal(actual_chars as nat) + " chars/"@ + decimal(
            actual_bytes as nat,
        ) + " bytes"@,
    }
}

fn keycode_zero(event: &str) -> (b: bool)
    ensures
        b == keycode_is_zero(event@),
{
    let v = chars_of(event);
    match find_char(v.as_slice(), ':') {
        Some(i) => {
            let code = slice_chars(v.as_slice(), 0, i);
            parse_u16(code.as_slice()) == Some(0u16)
        },
        None => false,
    }
}

impl ClipboardError {
    /// The message the app shows for this error.
    pub fn message(&self) -> (s: String)
        ensures
            s@ == error_text(*self),
    {
        let mut out: Vec<char> = Vec::new();
        match self {
            ClipboardError::EmptyXdotoolShortcut => {
                push_str(&mut out, "custom xdotool paste shortcut is empty");
            },
            ClipboardError::EmptyYdotoolShortcut => {
                push_str(&mut out, "custom ydotool paste shortcut is empty");
            },
            ClipboardError::MissingKeyState(ev) => {
                push_str(&mut out, "invalid ydotool key event ");
                push_str(&mut out, str_debug(ev.as_str()).as_str());
                push_str(&mut out, "; expected keycode:pressed");
            },
            ClipboardError::InvalidKeycode(ev) => {
                push_str(&mut out, "invalid ydotool keycode in ");
                push_str(&mut out, str_debug(ev.as_str()).as_str());
                if keycode_zero(ev.as_str()) {
                    push_str(&mut out, "; keycode must be positive");
                } else {
                    assert(out@ + Seq::<char>::empty() =~= out@);
                }
            },
            ClipboardError::InvalidKeyState(ev) => {
                push_str(&mut out, "invalid ydotool key state in ");
                push_str(&mut out, str_debug(ev.as_str()).as_str());
                push_str(&mut out, "; expected 0 or 1");
            },
            ClipboardError::NoDisplay => {
                push_str(
                    &mut out,
                    "no supported clipboard backend detected; WAYLAND_DISPLAY and DISPLAY are unset",
                );
            },
            ClipboardError::Mismatch {
                backend,
                expected_chars,
                expected_bytes,
                actual_chars,
                actual_bytes,
            } => {
                push_str(&mut out, "clipboard verification mismatch for ");
                push_str(&mut out, backend.as_str());
                push_str(&mut out, ": expected ");
                push_decimal(&mut out, *expected_chars as u64);
                push_str(&mut out, " chars/");
                push_decimal(&mut out, *expected_bytes as u64);
                push_str(&mut out, " bytes, got ");
                push_decimal(&mut out, *actual_chars as u64);
                push_str(&mut out, " chars/");
                push_decimal(&mut out, *actual_bytes as u64);
                push_str(&mut out, " bytes");
            },
        }
        string_from_chars(out.as_slice())
    }
}

/// The key events given to `ydotool key` for a paste request.
pub open spec fn ydotool_events(shortcut: PasteShortcut, custom: Seq<char>) -> Seq<Seq<char>> {
    match shortcut {
        PasteShortcut::CtrlV => seq!["29:1"@, "47:1"@, "47:0"@, "29:0"@],
        PasteShortcut::CtrlShiftV => seq!["29:1"@, "42:1"@, "47:1"@, "47:0"@, "42:0"@, "29:0"@],
        PasteShortcut::Custom => words(custom),
    }
}

/// The key events for `ydotool key`. A custom sequence must not be empty,
/// and the first event that fails its check decides the error.
pub fn ydotool_key_events(request: &PasteRequest) -> (r: Result<Vec<String>, ClipboardError>)
    ensures
        ({
            let events = ydotool_events(request.shortcut, request.custom_wayland@);
            &&& events.len() == 0 ==> r == Err::<Vec<String>, ClipboardError>(
                ClipboardError::EmptyYdotoolShortcut,
            )
            &&& events.len() > 0 && (forall|i: int|
                0 <= i < events.len() ==> key_event_check(#[trigger] events[i]) is Valid) ==> r is Ok
                && r->Ok_0@.map_values(|s: String| s@) == events
            &&& events.len() > 0 && r is Err ==> exists|k: int|
                0 <= k < events.len() && !(key_event_check(events[k]) is Valid) && (forall|j: int|
                    0 <= j < k ==> key_event_check(#[trigger] events[j]) is Valid) && reports_check(
                    Err(r->Err_0),
                    events[k],
                )
            &&& r is Ok ==> r->Ok_0@.map_values(|s: String| s@) == events
        }),
{
    let events = match request.shortcut {
        PasteShortcut::CtrlV => strings_from_strs(&["29:1", "47:1", "47:0", "29:0"]),
        PasteShortcut::CtrlShiftV => strings_from_strs(
            &["29:1", "42:1", "47:1", "47:0", "42:0", "29:0"],
        ),
        PasteShortcut::Custom => {
            let v = chars_of(request.custom_wayland.as_str());
            strings_of(split_words(v.as_slice()))
        },
    };
    let ghost ev = ydotool_events(request.shortcut, request.custom_wayland@);
    assert(events@.map_values(|s: String| s@) =~= ev);
    if events.len() == 0 {
        return Err(ClipboardError::EmptyYdotoolShortcut);
    }
    let mut i: usize = 0;
    while i < events.len()
        invariant
            i <= events@.len(),
            events@.map_values(|s: String| s@) == ev,
            ev == ydotool_events(request.shortcut, request.custom_wayland@),
            forall|j: int| 0 <= j < i ==> key_event_check(#[trigger] ev[j]) is Valid,
        decreases events@.len() - i,
    {
        assert(ev[i as int] == events@[i as int]@);
        match validate_ydotool_key_event(events[i].as_str()) {
            Ok(()) => {},
            Err(e) => {
                assert(!(key_event_check(ev[i as int]) is Valid));
                assert(reports_check(Err(e), ev[i as int]));
                return Err(e);
            },
        }
        i = i + 1;
    }
    Ok(events)
}

/// The code of the ASCII lower case of a character.
pub open spec fn ascii_lower(c: char) -> int {
    if 'A' <= c && c <= 'Z' {
        (c as u32) + 32
    } else {
        c as u32 as int
    }
}

/// Whether `a` equals `b` ignoring ASCII case.
pub open spec fn eq_ignore_ascii_case(a: Seq<char>, b: Seq<char>) -> bool {
    a.len() == b.len() && forall|i: int| 0 <= i < a.len() ==> ascii_lower(#[trigger] a[i]) == ascii_lower(b[i])
}

fn lower(c: char) -> (r: u32)
    ensures
        r == ascii_lower(c),
{
    if 'A' <= c && c <= 'Z' {
        (c as u32) + 32
    } else {
        c as u32
    }
}

pub fn equal_ignore_ascii_case(a: &[char], b: &[char]) -> (r: bool)
    ensures
        r == eq_ignore_ascii_case(a@, b@),
{
    if a.len() != b.len() {
        return false;
    }
    let mut i: usize = 0;
    while i < a.len()
        invariant
            i <= a@.len() == b@.len(),
            forall|j: int| 0 <= j < i ==> ascii_lower(#[trigger] a@[j]) == ascii_lower(b@[j]),
        decreases a@.len() - i,
    {
        if lower(a[i]) != lower(b[i]) {
            return false;
        }
        i = i + 1;
    }
    true
}

/// Whether an environment value is set and not empty.
pub fn non_empty_env(value: Option<&str>) -> (b: bool)
    ensures
        b == (value matches Some(s) && s@.len() > 0),
{
    match value {
        Some(s) => !s.is_empty(),
        None => false,
    }
}

/// The clipboard backend for the session described by `WAYLAND_DISPLAY`,
/// `XDG_SESSION_TYPE` and `DISPLAY`: Wayland when a Wayland display is set
/// or the session type is `wayland` in any case, else X11 when a display is set.
pub fn detect_clipboard_backend_from_env(
    wayland_display: Option<&str>,
    session_type: Option<&str>,
    display: Option<&str>,
) -> (r: Result<ClipboardBackend, ClipboardError>)
    ensures
        ({
            let wayland = (wayland_display matches Some(s) && s@.len() > 0) || (session_type matches Some(
                t,
            ) && eq_ignore_ascii_case(t@, "wayland"@));
            let x11 = display matches Some(s) && s@.len() > 0;
            &&& wayland ==> r == Ok::<ClipboardBackend, ClipboardError>(ClipboardBackend::Wayland)
            &&& !wayland && x11 ==> r == Ok::<ClipboardBackend, ClipboardError>(
                ClipboardBackend::X11,
            )
            &&& !wayland && !x11 ==> r == Err::<ClipboardBackend, ClipboardError>(
                ClipboardError::NoDisplay,
            )
        }),
{
    let wayland_session = match session_type {
        Some(t) => {
            let tv = chars_of(t);
            let w = chars_of("wayland");
            equal_ignore_ascii_case(tv.as_slice(), w.as_slice())
        },
        None => false,
    };
    if non_empty_env(wayland_display) || wayland_session {
        return Ok(ClipboardBackend::Wayland);
    }
    if non_empty_env(display) {
        return Ok(ClipboardBackend::X11);
    }
    Err(ClipboardError::NoDisplay)
}

/// Checks that the clipboard reads back what was copied.
pub fn verify_external_clipboard(backend: ClipboardBackend, expected_text: &str, actual_text: &str) -> (r: Result<(), ClipboardError>)
    ensures
        r is Ok <==> expected_text@ == actual_text@,
        r is Err ==> r->Err_0 == (ClipboardError::Mismatch {
            backend,
            expected_chars: expected_text@.len() as usize,
            expected_bytes: expected_text.spec_bytes().len() as usize,
            actual_chars: actual_text@.len() as usize,
            actual_bytes: actual_text.spec_bytes().len() as usize,
        }),
{
    let e = chars_of(expected_text);
    let a = chars_of(actual_text);
    if chars_equal(e.as_slice(), a.as_slice()) {
        return Ok(());
    }
    Err(
        ClipboardError::Mismatch {
            backend,
            expected_chars: e.len(),
            expected_bytes: expected_text.len(),
            actual_chars: a.len(),
            actual_bytes: actual_text.len(),
        },
    )
}

} // verus!
