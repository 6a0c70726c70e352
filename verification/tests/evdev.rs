use quillspeak::evdev::EvdevShortcuts;
use quillspeak::hotkey::HotkeyTransition;
use quillspeak::runtime_config::RuntimeShortcut;
use quillspeak::shortcut::{ShortcutChord, ShortcutKey, ShortcutModifiers, KEY_LEFTCTRL, KEY_RIGHTCTRL, KEY_SPACE};

fn shortcut(id: &str, ctrl: bool, key: ShortcutKey) -> RuntimeShortcut {
    RuntimeShortcut {
        id: id.to_string(),
        name: id.to_string(),
        accelerator: String::new(),
        chord: ShortcutChord {
            modifiers: ShortcutModifiers { ctrl, alt: false, shift: false, super_key: false },
            key,
        },
    }
}

#[test]
fn evdev_shortcuts_report_down_and_up_per_shortcut() {
    let mut shortcuts =
        EvdevShortcuts::from_shortcuts(vec![shortcut("ptt", true, ShortcutKey::Space)]).expect("mapped");
    assert_eq!(shortcuts.len(), 1);
    assert!(shortcuts.watches(KEY_LEFTCTRL));
    assert!(shortcuts.watches(KEY_RIGHTCTRL));
    assert!(shortcuts.watches(KEY_SPACE));
    assert!(!shortcuts.watches(30));

    assert!(shortcuts.handle_event(KEY_RIGHTCTRL, 1).is_empty());
    assert_eq!(
        shortcuts.handle_event(KEY_SPACE, 1),
        vec![("ptt".to_string(), HotkeyTransition::HotkeyDown)]
    );
    assert!(shortcuts.handle_event(KEY_SPACE, 2).is_empty());
    assert!(shortcuts.handle_event(30, 1).is_empty());
    assert_eq!(
        shortcuts.handle_event(KEY_RIGHTCTRL, 0),
        vec![("ptt".to_string(), HotkeyTransition::HotkeyUp)]
    );
    assert!(shortcuts.handle_event(KEY_SPACE, 0).is_empty());
}

#[test]
fn evdev_shortcuts_share_keys_and_reset_releases_held_ones() {
    let mut shortcuts = EvdevShortcuts::from_shortcuts(vec![
        shortcut("plain", false, ShortcutKey::Space),
        shortcut("ctrl", true, ShortcutKey::Space),
    ])
    .expect("mapped");
    assert!(shortcuts.handle_event(KEY_LEFTCTRL, 1).is_empty());
    assert_eq!(
        shortcuts.handle_event(KEY_SPACE, 1),
        vec![
            ("plain".to_string(), HotkeyTransition::HotkeyDown),
            ("ctrl".to_string(), HotkeyTransition::HotkeyDown),
        ]
    );
    assert_eq!(shortcuts.reset_active(), vec!["plain".to_string(), "ctrl".to_string()]);
    assert!(shortcuts.reset_active().is_empty());
}

#[test]
fn evdev_shortcuts_refuse_unmapped_keys() {
    assert!(EvdevShortcuts::from_shortcuts(vec![shortcut("odd", true, ShortcutKey::Character('€'))]).is_err());
    let empty = EvdevShortcuts::from_shortcuts(Vec::new()).expect("nothing to map");
    assert_eq!(empty.len(), 0);
    assert!(!empty.watches(KEY_SPACE));
    assert_eq!(EvdevShortcuts::empty().len(), 0);
}
