use quillspeak::clipboard::ClipboardCopyOutcome;
use quillspeak::clipboard::{
    clipboard_commands, clipboard_completion_for_output, clipboard_transport_text_for_output,
    detect_clipboard_backend_from_env, non_empty_env, validate_ydotool_key_event,
    verify_external_clipboard, wayland_copy_args, wayland_paste_args, xdotool_key_sequences,
    ydotool_key_events, ClipboardBackend, ClipboardCopySource, ClipboardError, OutputAction,
    OutputCompletion, PasteRequest, PasteShortcut, WAYLAND_TEXT_MIME,
};

fn output(copy: bool, paste: bool) -> OutputAction {
    OutputAction {
        copy_to_clipboard: copy,
        paste_from_clipboard: paste,
        paste_shortcut: PasteShortcut::CtrlV,
        paste_custom_x11: String::new(),
        paste_custom_wayland: String::new(),
    }
}

#[test]
fn clipboard_copy_source_tracks_transcription_context() {
    let source = ClipboardCopySource::Transcription {
        recording_id: 42,
        shortcut_id: "default".to_string(),
    };

    assert_eq!(source.recording_id(), 42);
    assert_eq!(source.shortcut_id(), "default");
    assert_eq!(source.kind(), "transcription");
    assert_eq!(source.script_path(), None);
}

#[test]
fn clipboard_copy_source_tracks_script_context() {
    let source = ClipboardCopySource::ScriptStdout {
        recording_id: 43,
        shortcut_id: "default".to_string(),
        script_path: "/tmp/script".to_string(),
    };

    assert_eq!(source.recording_id(), 43);
    assert_eq!(source.shortcut_id(), "default");
    assert_eq!(source.kind(), "script_stdout");
    assert_eq!(source.script_path(), Some("/tmp/script"));
}

#[test]
fn clipboard_copy_source_tracks_history_context() {
    let source = ClipboardCopySource::History {
        recording_id: 44,
        shortcut_id: "default".to_string(),
    };

    assert_eq!(source.recording_id(), 44);
    assert_eq!(source.shortcut_id(), "default");
    assert_eq!(source.kind(), "history");
    assert_eq!(source.script_path(), None);
}

#[test]
fn wayland_backend_uses_wl_copy_and_wl_paste() {
    let commands = clipboard_commands(ClipboardBackend::Wayland);

    assert_eq!(commands.copy, "wl-copy");
    assert_eq!(commands.paste, "wl-paste");
    assert_eq!(wayland_copy_args(), ["--type", WAYLAND_TEXT_MIME, "--"]);
    assert_eq!(
        wayland_paste_args(),
        ["--no-newline", "--type", WAYLAND_TEXT_MIME]
    );
}

#[test]
fn x11_backend_uses_xclip() {
    let commands = clipboard_commands(ClipboardBackend::X11);
    assert_eq!(commands.copy, "xclip");
    assert_eq!(commands.package_hint, "xclip");
    assert_eq!(ClipboardBackend::X11.as_str(), "x11-xclip");
    assert_eq!(ClipboardBackend::Wayland.as_str(), "wayland-wl-copy");
}

#[test]
fn clipboard_text_for_output_returns_trimmed_non_empty_text() {
    assert_eq!(
        clipboard_transport_text_for_output(&output(true, false), "  hello clipboard  ").as_deref(),
        Some("hello clipboard")
    );
}

#[test]
fn clipboard_text_for_output_skips_empty_text() {
    assert_eq!(clipboard_transport_text_for_output(&output(true, false), "   "), None);
}

#[test]
fn clipboard_text_for_output_skips_disabled_clipboard() {
    assert_eq!(clipboard_transport_text_for_output(&output(false, false), "hello"), None);
}

#[test]
fn clipboard_transport_is_required_for_paste_even_when_copy_is_disabled() {
    assert_eq!(
        clipboard_transport_text_for_output(&output(false, true), "hello").as_deref(),
        Some("hello")
    );
}

#[test]
fn clipboard_completion_waits_for_paste_when_paste_is_requested() {
    assert_eq!(
        clipboard_completion_for_output(&output(true, false)),
        OutputCompletion::ClipboardCopy
    );
    assert_eq!(
        clipboard_completion_for_output(&output(true, true)),
        OutputCompletion::ClipboardPaste
    );
}

#[test]
fn paste_presets_build_expected_commands() {
    let ctrl_v = PasteRequest {
        shortcut: PasteShortcut::CtrlV,
        custom_x11: String::new(),
        custom_wayland: String::new(),
    };
    assert_eq!(xdotool_key_sequences(&ctrl_v).unwrap(), vec!["ctrl+v"]);
    assert_eq!(
        ydotool_key_events(&ctrl_v).unwrap(),
        vec!["29:1", "47:1", "47:0", "29:0"]
    );

    let ctrl_shift_v = PasteRequest {
        shortcut: PasteShortcut::CtrlShiftV,
        custom_x11: String::new(),
        custom_wayland: String::new(),
    };
    assert_eq!(
        xdotool_key_sequences(&ctrl_shift_v).unwrap(),
        vec!["ctrl+shift+v"]
    );
    assert_eq!(
        ydotool_key_events(&ctrl_shift_v).unwrap(),
        vec!["29:1", "42:1", "47:1", "47:0", "42:0", "29:0"]
    );
}

#[test]
fn custom_paste_commands_are_validated() {
    let custom = PasteRequest {
        shortcut: PasteShortcut::Custom,
        custom_x11: "ctrl+v 0xff0d".to_string(),
        custom_wayland: "29:1 47:1 47:0 29:0".to_string(),
    };

    assert_eq!(
        xdotool_key_sequences(&custom).unwrap(),
        vec!["ctrl+v", "0xff0d"]
    );
    assert_eq!(
        ydotool_key_events(&custom).unwrap(),
        vec!["29:1", "47:1", "47:0", "29:0"]
    );

    let bad = PasteRequest {
        custom_wayland: "29:x".to_string(),
        ..custom
    };
    assert!(ydotool_key_events(&bad).is_err());
}

#[test]
fn empty_custom_paste_commands_are_rejected() {
    let empty = PasteRequest {
        shortcut: PasteShortcut::Custom,
        custom_x11: "  ".to_string(),
        custom_wayland: "\t".to_string(),
    };
    assert_eq!(xdotool_key_sequences(&empty), Err(ClipboardError::EmptyXdotoolShortcut));
    assert_eq!(ydotool_key_events(&empty), Err(ClipboardError::EmptyYdotoolShortcut));
}

#[test]
fn ydotool_key_event_errors_name_the_event() {
    assert_eq!(validate_ydotool_key_event("29:1"), Ok(()));
    assert_eq!(validate_ydotool_key_event("+29:0"), Ok(()));
    assert_eq!(
        validate_ydotool_key_event("29"),
        Err(ClipboardError::MissingKeyState("29".to_string()))
    );
    assert_eq!(
        validate_ydotool_key_event("0:1"),
        Err(ClipboardError::InvalidKeycode("0:1".to_string()))
    );
    assert_eq!(
        validate_ydotool_key_event("70000:1"),
        Err(ClipboardError::InvalidKeycode("70000:1".to_string()))
    );
    assert_eq!(
        validate_ydotool_key_event("29:2"),
        Err(ClipboardError::InvalidKeyState("29:2".to_string()))
    );
    assert_eq!(
        validate_ydotool_key_event("29:1:1"),
        Err(ClipboardError::InvalidKeyState("29:1:1".to_string()))
    );
    let mixed = PasteRequest {
        shortcut: PasteShortcut::Custom,
        custom_x11: String::new(),
        custom_wayland: "29:1 x 47:9".to_string(),
    };
    assert_eq!(
        ydotool_key_events(&mixed),
        Err(ClipboardError::MissingKeyState("x".to_string()))
    );
}

#[test]
fn wayland_env_selects_wl_clipboard_backend() {
    assert_eq!(
        detect_clipboard_backend_from_env(Some("wayland-0"), None, None),
        Ok(ClipboardBackend::Wayland)
    );
}

#[test]
fn wayland_session_selects_wl_clipboard_backend() {
    assert_eq!(
        detect_clipboard_backend_from_env(None, Some("Wayland"), Some(":0")),
        Ok(ClipboardBackend::Wayland)
    );
}

#[test]
fn x11_env_selects_xclip_backend() {
    assert_eq!(
        detect_clipboard_backend_from_env(Some(""), Some("x11"), Some(":0")),
        Ok(ClipboardBackend::X11)
    );
}

#[test]
fn missing_display_env_rejects_clipboard_backend() {
    assert_eq!(
        detect_clipboard_backend_from_env(None, None, Some("")),
        Err(ClipboardError::NoDisplay)
    );
    assert!(detect_clipboard_backend_from_env(None, None, Some(""))
        .unwrap_err()
        .message()
        .contains("WAYLAND_DISPLAY and DISPLAY are unset"));
    assert!(!non_empty_env(None));
    assert!(non_empty_env(Some(":1")));
}

#[test]
fn clipboard_verification_reports_sizes() {
    assert_eq!(verify_external_clipboard(ClipboardBackend::X11, "héllo", "héllo"), Ok(()));
    assert_eq!(
        verify_external_clipboard(ClipboardBackend::Wayland, "héllo", "hi"),
        Err(ClipboardError::Mismatch {
            backend: ClipboardBackend::Wayland,
            expected_chars: 5,
            expected_bytes: 6,
            actual_chars: 2,
            actual_bytes: 2,
        })
    );
    let output = OutputAction {
        copy_to_clipboard: true,
        paste_from_clipboard: true,
        paste_shortcut: PasteShortcut::Custom,
        paste_custom_x11: "a".to_string(),
        paste_custom_wayland: "1:1".to_string(),
    };
    let request = PasteRequest::from_output(&output);
    assert_eq!(request.shortcut, PasteShortcut::Custom);
    assert_eq!(request.custom_wayland, "1:1");
}

#[test]
fn copy_outcome_counts_chars_and_utf8_bytes() {
    let outcome = ClipboardCopyOutcome::for_text(ClipboardBackend::Wayland, "héllo ✓");
    assert_eq!(outcome.backend, ClipboardBackend::Wayland);
    assert_eq!(outcome.text_chars, 7);
    assert_eq!(outcome.text_bytes, 10);
    let empty = ClipboardCopyOutcome::for_text(ClipboardBackend::X11, "");
    assert_eq!((empty.text_chars, empty.text_bytes), (0, 0));
}

#[test]
fn clipboard_error_messages_name_the_problem() {
    assert_eq!(
        ClipboardError::EmptyXdotoolShortcut.message(),
        "custom xdotool paste shortcut is empty"
    );
    assert_eq!(
        ClipboardError::MissingKeyState("29".to_string()).message(),
        "invalid ydotool key event \"29\"; expected keycode:pressed"
    );
    assert_eq!(
        ClipboardError::InvalidKeycode("0:1".to_string()).message(),
        "invalid ydotool keycode in \"0:1\"; keycode must be positive"
    );
    assert_eq!(
        ClipboardError::InvalidKeycode("x:1".to_string()).message(),
        "invalid ydotool keycode in \"x:1\""
    );
    assert_eq!(
        ClipboardError::InvalidKeyState("29:2".to_string()).message(),
        "invalid ydotool key state in \"29:2\"; expected 0 or 1"
    );
    assert_eq!(
        ClipboardError::Mismatch {
            backend: ClipboardBackend::X11,
            expected_chars: 3,
            expected_bytes: 4,
            actual_chars: 0,
            actual_bytes: 0,
        }
        .message(),
        "clipboard verification mismatch for x11-xclip: expected 3 chars/4 bytes, got 0 chars/0 bytes"
    );
}
