//! Values behind the settings window's rows and pages: dropdown positions
//! of the backend choices, the status lines of the keyboard and clipboard
//! tools, and which pages the window lists.
use vstd::prelude::*;

use crate::clipboard::{eq_ignore_ascii_case, equal_ignore_ascii_case, PasteShortcut};
use crate::config::{AppConfig, ShortcutProfile, ShortcutTrigger, DEFAULT_ACCELERATOR, DEFAULT_SHORTCUT_ID};
use crate::runtime::same_str;
use crate::text::{chars_of, join_strings, joined, push_str, string_from_chars};
use crate::whisper::ComputeBackend;

verus! {

broadcast use vstd::string::group_string_axioms;

/// The position of a compute backend in its dropdown.
pub open spec fn compute_position(b: ComputeBackend) -> u32 {
    match b {
        ComputeBackend::Auto => 0,
        ComputeBackend::Cpu => 1,
        ComputeBackend::Vulkan => 2,
        ComputeBackend::Cuda => 3,
        ComputeBackend::Rocm => 4,
    }
}

/// The dropdown position of a compute backend.
pub fn compute_index(backend: ComputeBackend) -> (i: u32)
    ensures
        i == compute_position(backend),
{
    match backend {
        ComputeBackend::Auto => 0,
        ComputeBackend::Cpu => 1,
        ComputeBackend::Vulkan => 2,
        ComputeBackend::Cuda => 3,
        ComputeBackend::Rocm => 4,
    }
}

/// The compute backend at a dropdown position; any other position is
/// `Auto`.
pub fn compute_from_index(index: u32) -> (b: ComputeBackend)
    ensures
        index <= 4 ==> compute_position(b) == index,
        index > 4 ==> b == ComputeBackend::Auto,
{
    match index {
        1 => ComputeBackend::Cpu,
        2 => ComputeBackend::Vulkan,
        3 => ComputeBackend::Cuda,
        4 => ComputeBackend::Rocm,
        _ => ComputeBackend::Auto,
    }
}

/// Reading back the position a backend is shown at gives that backend.
pub proof fn lemma_compute_position_round_trip(b: ComputeBackend, c: ComputeBackend)
    requires
        compute_position(b) == compute_position(c),
    ensures
        b == c,
{
}

/// Which global shortcut backend the settings ask for.
#[derive(Debug, Clone, Copy, PartialEq, Eq, Structural)]
pub enum HotkeyBackend {
    Auto,
    Disabled,
    X11,
}

/// The position of a shortcut backend in its dropdown.
pub open spec fn backend_position(b: HotkeyBackend) -> u32 {
    match b {
        HotkeyBackend::Auto => 0,
        HotkeyBackend::Disabled => 1,
        HotkeyBackend::X11 => 2,
    }
}

/// The dropdown position of a shortcut backend.
pub fn backend_index(backend: HotkeyBackend) -> (i: u32)
    ensures
        i == backend_position(backend),
{
    match backend {
        HotkeyBackend::Auto => 0,
        HotkeyBackend::Disabled => 1,
        HotkeyBackend::X11 => 2,
    }
}

/// The shortcut backend at a dropdown position; any other position is
/// `Auto`.
pub fn backend_from_index(index: u32) -> (b: HotkeyBackend)
    ensures
        index <= 2 ==> backend_position(b) == index,
        index > 2 ==> b == HotkeyBackend::Auto,
{
    match index {
        1 => HotkeyBackend::Disabled,
        2 => HotkeyBackend::X11,
        _ => HotkeyBackend::Auto,
    }
}

/// Reading back the position a shortcut backend is shown at gives that
/// backend.
pub proof fn lemma_backend_position_round_trip(b: HotkeyBackend, c: HotkeyBackend)
    requires
        backend_position(b) == backend_position(c),
    ensures
        b == c,
{
}

/// The position of `selected` among `values`, or the first position when
/// it is not there.
pub open spec fn selected_position(values: Seq<Seq<char>>, selected: Seq<char>) -> int {
    if exists|i: int| 0 <= i < values.len() && values[i] == selected {
        choose|i: int| 0 <= i < values.len() && values[i] == selected && forall|k: int|
            0 <= k < i ==> values[k] != selected
    } else {
        0
    }
}

/// The dropdown position of the selected value: its first position among
/// the values, or the first position when it is not there.
pub fn selected_index(values: &Vec<String>, selected: &str) -> (i: u32)
    ensures
        i == (selected_position(values@.map_values(|v: String| v@), selected@) as u32),
{
    let ghost vs = values@.map_values(|v: String| v@);
    let want = chars_of(selected);
    let mut k: usize = 0;
    while k < values.len()
        invariant
            k <= values@.len(),
            vs == values@.map_values(|v: String| v@),
            want@ == selected@,
            forall|j: int| 0 <= j < k ==> vs[j] != selected@,
        decreases values@.len() - k,
    {
        let v = chars_of(values[k].as_str());
        assert(vs[k as int] == values@[k as int]@);
        if crate::text::chars_equal(v.as_slice(), want.as_slice()) {
            assert(0 <= k < vs.len() && vs[k as int] == selected@ && forall|m: int|
                0 <= m < k ==> vs[m] != selected@);
            let ghost c = choose|i: int| 0 <= i < vs.len() && vs[i] == selected@ && forall|m: int|
                0 <= m < i ==> vs[m] != selected@;
            assert(c == k) by {
                if c < k {
                    assert(vs[c] != selected@);
                } else if k < c {
                    assert(vs[k as int] == selected@);
                }
            }
            return k as u32;
        }
        k = k + 1;
    }
    assert(!exists|i: int| 0 <= i < vs.len() && vs[i] == selected@);
    0
}

/// Which display session the environment describes.
#[derive(Debug, Clone, Copy, PartialEq, Eq, Structural)]
pub enum DisplaySession {
    Wayland,
    X11,
    Headless,
}

/// The session: Wayland when `WAYLAND_DISPLAY` is set or the session type
/// is `wayland` in any case, else X11 when `DISPLAY` is set.
pub fn display_session(wayland_display_set: bool, session_type: Option<&str>, display_set: bool) -> (s: DisplaySession)
    ensures
        s == (if wayland_display_set || match session_type {
            Some(t) => eq_ignore_ascii_case(t@, "wayland"@),
            None => false,
        } {
            DisplaySession::Wayland
        } else if display_set {
            DisplaySession::X11
        } else {
            DisplaySession::Headless
        }),
{
    let wayland_type = match session_type {
        Some(t) => {
            let v = chars_of(t);
            let w = chars_of("wayland");
            equal_ignore_ascii_case(v.as_slice(), w.as_slice())
        },
        None => false,
    };
    if wayland_display_set || wayland_type {
        DisplaySession::Wayland
    } else if display_set {
        DisplaySession::X11
    } else {
        DisplaySession::Headless
    }
}

/// The keyboard shortcut line of the settings page: grabs work under X11
/// only, Linux signals always.
pub fn advanced_hotkey_status(wayland_display_set: bool, display_set: bool) -> (s: &'static str)
    ensures
        s@ == (if !wayland_display_set && display_set {
            "Keyboard shortcuts: X11"@
        } else {
            "Keyboard shortcuts disabled; Linux signals active"@
        }),
{
    if wayland_display_set {
        "Keyboard shortcuts disabled; Linux signals active"
    } else if display_set {
        "Keyboard shortcuts: X11"
    } else {
        "Keyboard shortcuts disabled; Linux signals active"
    }
}

/// The names of the tools that are not available, in order.
pub open spec fn missing_tools(tools: Seq<(Seq<char>, bool)>) -> Seq<Seq<char>>
    decreases tools.len(),
{
    if tools.len() == 0 {
        seq![]
    } else {
        let prev = missing_tools(tools.drop_last());
        if tools.last().1 {
            prev
        } else {
            prev.push(tools.last().0)
        }
    }
}

/// The status of a set of tools: `Ready:` and all their names when every
/// one is available, else `Missing:` and the names of those that are not.
pub open spec fn tool_status_text(tools: Seq<(Seq<char>, bool)>) -> Seq<char> {
    let missing = missing_tools(tools);
    if missing.len() == 0 {
        "Ready: "@ + joined(tools.map_values(|t: (Seq<char>, bool)| t.0), ", "@)
    } else {
        "Missing: "@ + joined(missing, ", "@)
    }
}

/// The status of tools, each given with whether it is available.
pub fn tool_status(tools: &Vec<(String, bool)>) -> (s: String)
    ensures
        s@ == tool_status_text(tools@.map_values(|t: (String, bool)| (t.0@, t.1))),
{
    let ghost tv = tools@.map_values(|t: (String, bool)| (t.0@, t.1));
    let mut names: Vec<String> = Vec::new();
    let mut missing: Vec<String> = Vec::new();
    let mut i: usize = 0;
    while i < tools.len()
        invariant
            i <= tools@.len(),
            tv == tools@.map_values(|t: (String, bool)| (t.0@, t.1)),
            names@.map_values(|n: String| n@) == tv.subrange(0, i as int).map_values(
                |t: (Seq<char>, bool)| t.0,
            ),
            missing@.map_values(|n: String| n@) == missing_tools(tv.subrange(0, i as int)),
        decreases tools@.len() - i,
    {
        let ghost before_names = names@.map_values(|n: String| n@);
        let ghost before_missing = missing@.map_values(|n: String| n@);
        assert(tv.subrange(0, i + 1).drop_last() =~= tv.subrange(0, i as int));
        assert(tv[i as int] == (tools@[i as int].0@, tools@[i as int].1));
        names.push(tools[i].0.clone());
        assert(names@.map_values(|n: String| n@) =~= before_names.push(tools@[i as int].0@));
        assert(tv.subrange(0, i + 1).map_values(|t: (Seq<char>, bool)| t.0) =~= tv.subrange(
            0,
            i as int,
        ).map_values(|t: (Seq<char>, bool)| t.0).push(tv[i as int].0));
        if !tools[i].1 {
            missing.push(tools[i].0.clone());
            assert(missing@.map_values(|n: String| n@) =~= before_missing.push(tools@[i as int].0@));
        }
        i = i + 1;
    }
    assert(tv.subrange(0, i as int) =~= tv);
    let mut out: Vec<char> = Vec::new();
    if missing.len() == 0 {
        push_str(&mut out, "Ready: ");
        let list = join_strings(&names, ", ");
        push_str(&mut out, list.as_str());
    } else {
        push_str(&mut out, "Missing: ");
        let list = join_strings(&missing, ", ");
        push_str(&mut out, list.as_str());
    }
    string_from_chars(out.as_slice())
}

/// Whether each clipboard tool is on the `PATH`.
#[derive(Debug, Clone, Copy, PartialEq, Eq, Structural)]
pub struct OutputTools {
    pub wl_copy: bool,
    pub wl_paste: bool,
    pub ydotool: bool,
    pub xclip: bool,
    pub xdotool: bool,
}

/// The clipboard tools line of the settings page: the Wayland tools in a
/// Wayland session, the X11 tools under X11, and no tools without a
/// display.
pub fn output_tools_status(session: DisplaySession, tools: OutputTools) -> (s: String)
    ensures
        session == DisplaySession::Wayland ==> s@ == tool_status_text(
            seq![("wl-copy"@, tools.wl_copy), ("wl-paste"@, tools.wl_paste), ("ydotool"@, tools.ydotool)],
        ),
        session == DisplaySession::X11 ==> s@ == tool_status_text(
            seq![("xclip"@, tools.xclip), ("xdotool"@, tools.xdotool)],
        ),
        session == DisplaySession::Headless ==> s@ == "No display backend detected"@,
{
    match session {
        DisplaySession::Wayland => {
            let list = vec![
                ("wl-copy".to_string(), tools.wl_copy),
                ("wl-paste".to_string(), tools.wl_paste),
                ("ydotool".to_string(), tools.ydotool),
            ];
            let s = tool_status(&list);
            assert(list@.map_values(|t: (String, bool)| (t.0@, t.1)) =~= seq![
                ("wl-copy"@, tools.wl_copy),
                ("wl-paste"@, tools.wl_paste),
                ("ydotool"@, tools.ydotool),
            ]);
            s
        },
        DisplaySession::X11 => {
            let list = vec![("xclip".to_string(), tools.xclip), ("xdotool".to_string(), tools.xdotool)];
            let s = tool_status(&list);
            assert(list@.map_values(|t: (String, bool)| (t.0@, t.1)) =~= seq![
                ("xclip"@, tools.xclip),
                ("xdotool"@, tools.xdotool),
            ]);
            s
        },
        DisplaySession::Headless => string_from_chars(chars_of("No display backend detected").as_slice()),
    }
}


/// The position of a paste shortcut in its dropdown.
pub open spec fn paste_position(p: PasteShortcut) -> u32 {
    match p {
        PasteShortcut::CtrlV => 0,
        PasteShortcut::CtrlShiftV => 1,
        PasteShortcut::Custom => 2,
    }
}

/// The dropdown position of a paste shortcut.
pub fn paste_shortcut_index(shortcut: PasteShortcut) -> (i: u32)
    ensures
        i == paste_position(shortcut),
{
    match shortcut {
        PasteShortcut::CtrlV => 0,
        PasteShortcut::CtrlShiftV => 1,
        PasteShortcut::Custom => 2,
    }
}

/// The paste shortcut at a dropdown position; any other position is
/// Ctrl+V.
pub fn paste_shortcut_from_index(index: u32) -> (p: PasteShortcut)
    ensures
        index <= 2 ==> paste_position(p) == index,
        index > 2 ==> p == PasteShortcut::CtrlV,
{
    match index {
        1 => PasteShortcut::CtrlShiftV,
        2 => PasteShortcut::Custom,
        _ => PasteShortcut::CtrlV,
    }
}

/// The accelerator a shortcut's page shows: its keyboard chord, or for a
/// signal shortcut the default chord on the default shortcut and nothing
/// on the others.
pub fn shortcut_keyboard_accelerator(shortcut: &ShortcutProfile) -> (s: String)
    ensures
        match shortcut.trigger {
            ShortcutTrigger::Keyboard { accelerator } => s@ == accelerator@,
            ShortcutTrigger::LinuxSignal { .. } => s@ == (if shortcut.id@ == DEFAULT_SHORTCUT_ID@ {
                DEFAULT_ACCELERATOR@
            } else {
                Seq::<char>::empty()
            }),
        },
{
    match &shortcut.trigger {
        ShortcutTrigger::Keyboard { accelerator } => accelerator.clone(),
        ShortcutTrigger::LinuxSignal { .. } => {
            if same_str(shortcut.id.as_str(), DEFAULT_SHORTCUT_ID) {
                DEFAULT_ACCELERATOR.to_string()
            } else {
                String::new()
            }
        },
    }
}

/// The start and stop signals a shortcut's page shows: its own, or
/// `SIGUSR1` and `SIGUSR2` for a keyboard shortcut.
pub fn shortcut_signal_pair(shortcut: &ShortcutProfile) -> (r: (String, String))
    ensures
        match shortcut.trigger {
            ShortcutTrigger::LinuxSignal { start_signal, stop_signal } => r.0@ == start_signal@
                && r.1@ == stop_signal@,
            ShortcutTrigger::Keyboard { .. } => r.0@ == "SIGUSR1"@ && r.1@ == "SIGUSR2"@,
        },
{
    match &shortcut.trigger {
        ShortcutTrigger::LinuxSignal { start_signal, stop_signal } => (start_signal.clone(), stop_signal.clone()),
        ShortcutTrigger::Keyboard { .. } => ("SIGUSR1".to_string(), "SIGUSR2".to_string()),
    }
}

/// The name of a shortcut's settings page.
pub open spec fn shortcut_page(id: Seq<char>) -> Seq<char> {
    "shortcut-"@ + id
}

/// The name of a shortcut's settings page: `shortcut-` and its id.
pub fn shortcut_page_name(shortcut_id: &str) -> (s: String)
    ensures
        s@ == shortcut_page(shortcut_id@),
{
    let mut out: Vec<char> = Vec::new();
    push_str(&mut out, "shortcut-");
    push_str(&mut out, shortcut_id);
    string_from_chars(out.as_slice())
}

/// The title of a shortcut's page: "Default" for the default shortcut,
/// otherwise its name.
pub open spec fn shortcut_page_title(p: ShortcutProfile) -> Seq<char> {
    if p.id@ == DEFAULT_SHORTCUT_ID@ {
        "Default"@
    } else {
        p.name@
    }
}

/// The pages of the settings window in order, as (name, title): status,
/// general and models, one page per shortcut, and the page that adds one.
pub open spec fn page_list(shortcuts: Seq<ShortcutProfile>) -> Seq<(Seq<char>, Seq<char>)> {
    seq![("status"@, "Status"@), ("general"@, "General"@), ("models"@, "Models"@)]
        + shortcuts.map_values(
        |p: ShortcutProfile| (shortcut_page(p.id@), shortcut_page_title(p)),
    ) + seq![("add-shortcut"@, "Add New"@)]
}

/// Pages as characters.
pub open spec fn page_views(v: Seq<(String, String)>) -> Seq<(Seq<char>, Seq<char>)> {
    v.map_values(|e: (String, String)| (e.0@, e.1@))
}

fn push_page(v: &mut Vec<(String, String)>, name: String, title: String)
    ensures
        page_views(final(v)@) == page_views(old(v)@).push((name@, title@)),
{
    let ghost before = v@;
    v.push((name, title));
    assert(page_views(v@) =~= page_views(before).push((name@, title@)));
}

/// The pages the settings window lists for a configuration, in order, as
/// (name, title).
pub fn settings_pages(config: &AppConfig) -> (v: Vec<(String, String)>)
    ensures
        page_views(v@) == page_list(config.shortcuts@),
{
    let mut v: Vec<(String, String)> = Vec::new();
    push_page(&mut v, "status".to_owned(), "Status".to_owned());
    push_page(&mut v, "general".to_owned(), "General".to_owned());
    push_page(&mut v, "models".to_owned(), "Models".to_owned());
    let ghost head = seq![("status"@, "Status"@), ("general"@, "General"@), ("models"@, "Models"@)];
    assert(page_views(v@) =~= head);
    let shortcuts = &config.shortcuts;
    let ghost per = shortcuts@.map_values(
        |p: ShortcutProfile| (shortcut_page(p.id@), shortcut_page_title(p)),
    );
    let mut i: usize = 0;
    while i < shortcuts.len()
        invariant
            i <= shortcuts@.len(),
            per == shortcuts@.map_values(
                |p: ShortcutProfile| (shortcut_page(p.id@), shortcut_page_title(p)),
            ),
            page_views(v@) == head + per.take(i as int),
        decreases shortcuts@.len() - i,
    {
        let p = &shortcuts[i];
        let title = if same_str(p.id.as_str(), DEFAULT_SHORTCUT_ID) {
            "Default".to_owned()
        } else {
            p.name.clone()
        };
        let name = shortcut_page_name(p.id.as_str());
        push_page(&mut v, name, title);
        assert(per.take(i + 1) =~= per.take(i as int).push(per[i as int]));
        assert(head + per.take(i + 1) =~= (head + per.take(i as int)).push(per[i as int]));
        i = i + 1;
    }
    push_page(&mut v, "add-shortcut".to_owned(), "Add New".to_owned());
    assert(per.take(shortcuts@.len() as int) =~= per);
    v
}

/// The page to show: the preferred one where the window lists a page of
/// that name, otherwise the status page.
pub open spec fn visible_page_name(preferred: Option<Seq<char>>, names: Seq<Seq<char>>) -> Seq<char> {
    match preferred {
        Some(p) => if names.contains(p) {
            p
        } else {
            "status"@
        },
        None => "status"@,
    }
}

/// The page to show among `pages`: the preferred one where a page of that
/// name is listed, otherwise the status page.
pub fn visible_page(preferred: Option<&str>, pages: &Vec<(String, String)>) -> (s: String)
    ensures
        s@ == visible_page_name(
            match preferred {
                Some(p) => Some(p@),
                None => None,
            },
            pages@.map_values(|e: (String, String)| e.0@),
        ),
{
    let ghost names = pages@.map_values(|e: (String, String)| e.0@);
    match preferred {
        Some(p) => {
            let mut i: usize = 0;
            while i < pages.len()
                invariant
                    i <= pages@.len(),
                    preferred == Some(p),
                    names == pages@.map_values(|e: (String, String)| e.0@),
                    forall|j: int| 0 <= j < i ==> names[j] != p@,
                decreases pages@.len() - i,
            {
                if same_str(pages[i].0.as_str(), p) {
                    assert(names[i as int] == p@);
                    assert(names.contains(p@));
                    return p.to_owned();
                }
                i = i + 1;
            }
            assert(!names.contains(p@));
            "status".to_owned()
        },
        None => "status".to_owned(),
    }
}

} // verus!
