use quillspeak::settings_rows::{
    advanced_hotkey_status, backend_from_index, backend_index, compute_from_index, compute_index,
    display_session, output_tools_status, paste_shortcut_from_index, paste_shortcut_index,
    selected_index, shortcut_keyboard_accelerator, shortcut_signal_pair, tool_status,
    DisplaySession, HotkeyBackend, OutputTools,
};
use quillspeak::settings_rows::{settings_pages, shortcut_page_name, visible_page};
use quillspeak::config::AppConfig;
use quillspeak::clipboard::PasteShortcut;
use quillspeak::config::{ShortcutProfile, ShortcutTrigger};
use quillspeak::whisper::ComputeBackend;

#[test]
fn compute_and_backend_dropdown_positions_round_trip() {
    for backend in [
        ComputeBackend::Auto,
        ComputeBackend::Cpu,
        ComputeBackend::Vulkan,
        ComputeBackend::Cuda,
        ComputeBackend::Rocm,
    ] {
        assert_eq!(compute_from_index(compute_index(backend)), backend);
    }
    assert_eq!(compute_index(ComputeBackend::Cuda), 3);
    assert_eq!(compute_from_index(9), ComputeBackend::Auto);
    for backend in [HotkeyBackend::Auto, HotkeyBackend::Disabled, HotkeyBackend::X11] {
        assert_eq!(backend_from_index(backend_index(backend)), backend);
    }
    assert_eq!(backend_index(HotkeyBackend::X11), 2);
    assert_eq!(backend_from_index(7), HotkeyBackend::Auto);
}

#[test]
fn selected_index_finds_the_first_match_or_defaults_to_zero() {
    let values: Vec<String> = ["auto", "en", "de", "en"].iter().map(|v| v.to_string()).collect();
    assert_eq!(selected_index(&values, "en"), 1);
    assert_eq!(selected_index(&values, "de"), 2);
    assert_eq!(selected_index(&values, "fr"), 0);
    assert_eq!(selected_index(&Vec::new(), "en"), 0);
}

#[test]
fn hotkey_status_follows_the_display_session() {
    assert_eq!(advanced_hotkey_status(false, true), "Keyboard shortcuts: X11");
    assert_eq!(
        advanced_hotkey_status(true, true),
        "Keyboard shortcuts disabled; Linux signals active"
    );
    assert_eq!(
        advanced_hotkey_status(false, false),
        "Keyboard shortcuts disabled; Linux signals active"
    );
}

#[test]
fn output_tools_status_lists_ready_or_missing_tools() {
    let all = OutputTools { wl_copy: true, wl_paste: true, ydotool: true, xclip: true, xdotool: false };
    assert_eq!(display_session(false, Some("WayLand"), true), DisplaySession::Wayland);
    assert_eq!(display_session(false, Some("x11"), true), DisplaySession::X11);
    assert_eq!(display_session(false, None, false), DisplaySession::Headless);
    assert_eq!(output_tools_status(DisplaySession::Wayland, all), "Ready: wl-copy, wl-paste, ydotool");
    assert_eq!(output_tools_status(DisplaySession::X11, all), "Missing: xdotool");
    assert_eq!(output_tools_status(DisplaySession::Headless, all), "No display backend detected");
    let none = vec![("a".to_string(), false), ("b".to_string(), true), ("c".to_string(), false)];
    assert_eq!(tool_status(&none), "Missing: a, c");
}

#[test]
fn paste_shortcut_positions_round_trip() {
    for shortcut in [PasteShortcut::CtrlV, PasteShortcut::CtrlShiftV, PasteShortcut::Custom] {
        assert_eq!(paste_shortcut_from_index(paste_shortcut_index(shortcut)), shortcut);
    }
    assert_eq!(paste_shortcut_from_index(5), PasteShortcut::CtrlV);
}

#[test]
fn shortcut_page_shows_chord_and_signal_pair() {
    let mut keyboard = ShortcutProfile::new_profile("k".to_string(), "K".to_string(), "tiny".to_string());
    keyboard.trigger = ShortcutTrigger::Keyboard { accelerator: "Ctrl+F9".to_string() };
    assert_eq!(shortcut_keyboard_accelerator(&keyboard), "Ctrl+F9");
    assert_eq!(shortcut_signal_pair(&keyboard), ("SIGUSR1".to_string(), "SIGUSR2".to_string()));

    let mut signal = keyboard.clone();
    signal.trigger = ShortcutTrigger::LinuxSignal {
        start_signal: "SIGHUP".to_string(),
        stop_signal: "SIGINT".to_string(),
    };
    assert_eq!(shortcut_keyboard_accelerator(&signal), "");
    assert_eq!(shortcut_signal_pair(&signal), ("SIGHUP".to_string(), "SIGINT".to_string()));
    signal.id = "default".to_string();
    assert_eq!(shortcut_keyboard_accelerator(&signal), "Ctrl+Alt+Space");
}

fn page(name: &str, title: &str) -> (String, String) {
    (name.to_string(), title.to_string())
}

#[test]
fn settings_window_lists_app_pages_then_shortcuts() {
    let config = AppConfig {
        shortcuts: vec![
            ShortcutProfile::new_profile("default".to_string(), "Renamed".to_string(), "base".to_string()),
            ShortcutProfile::new_profile("shortcut-2".to_string(), "Notes".to_string(), "base".to_string()),
        ],
        compute_backend: ComputeBackend::Auto,
        keep_model_loaded: true,
    };
    let pages = settings_pages(&config);
    assert_eq!(
        pages,
        vec![
            page("status", "Status"),
            page("general", "General"),
            page("models", "Models"),
            page("shortcut-default", "Default"),
            page("shortcut-shortcut-2", "Notes"),
            page("add-shortcut", "Add New"),
        ]
    );
    assert_eq!(shortcut_page_name("shortcut-2"), "shortcut-shortcut-2");
    assert_eq!(visible_page(Some("models"), &pages), "models");
    assert_eq!(visible_page(Some("shortcut-gone"), &pages), "status");
    assert_eq!(visible_page(None, &pages), "status");
}
