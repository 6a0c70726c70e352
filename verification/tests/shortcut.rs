use quillspeak::hotkey::HotkeyStateMachine;
use quillspeak::shortcut::{
    keycode_for_character, keycode_for_shortcut_key, requirements_for_chord, ShortcutChord,
    ShortcutKey, ShortcutModifiers, KEY_F1, KEY_LEFTALT, KEY_LEFTCTRL, KEY_RIGHTCTRL, KEY_SPACE,
};

fn modifiers(ctrl: bool, alt: bool, shift: bool, super_key: bool) -> ShortcutModifiers {
    ShortcutModifiers { ctrl, alt, shift, super_key }
}

#[test]
fn maps_ctrl_space_to_evdev_requirements() {
    let chord = ShortcutChord {
        modifiers: modifiers(true, false, false, false),
        key: ShortcutKey::Space,
    };

    let machine = HotkeyStateMachine::new(requirements_for_chord(chord).expect("requirements"));

    assert!(machine.watched_keys().contains(&KEY_LEFTCTRL));
    assert!(machine.watched_keys().contains(&KEY_RIGHTCTRL));
    assert!(machine.watched_keys().contains(&KEY_SPACE));
    assert!(!machine.watched_keys().contains(&KEY_LEFTALT));
}

#[test]
fn characters_map_case_insensitively() {
    assert_eq!(keycode_for_character('f'), Ok(33));
    assert_eq!(keycode_for_character('F'), Ok(33));
    assert_eq!(keycode_for_character('a'), Ok(30));
    assert_eq!(keycode_for_character('z'), Ok(44));
    assert_eq!(keycode_for_character('1'), Ok(2));
    assert_eq!(keycode_for_character('9'), Ok(10));
    assert_eq!(keycode_for_character('0'), Ok(11));
    assert_eq!(keycode_for_character('\\'), Ok(43));
    assert_eq!(
        keycode_for_character('é'),
        Err("unsupported evdev shortcut character 'é'".to_string())
    );
}

#[test]
fn function_keys_stop_at_f24() {
    assert_eq!(keycode_for_shortcut_key(ShortcutKey::Function(1)), Ok(KEY_F1));
    assert_eq!(keycode_for_shortcut_key(ShortcutKey::Function(12)), Ok(KEY_F1 + 11));
    assert_eq!(
        keycode_for_shortcut_key(ShortcutKey::Function(25)),
        Err("unsupported function key F25".to_string())
    );
    assert!(keycode_for_shortcut_key(ShortcutKey::Function(0)).is_err());
    assert_eq!(keycode_for_shortcut_key(ShortcutKey::Escape), Ok(1));
}

#[test]
fn chords_list_modifiers_before_the_key() {
    let chord = ShortcutChord {
        modifiers: modifiers(true, true, true, true),
        key: ShortcutKey::Character('v'),
    };
    let requirements = requirements_for_chord(chord).expect("requirements");
    assert_eq!(requirements.len(), 5);
    let bad = ShortcutChord { modifiers: modifiers(true, false, false, false), key: ShortcutKey::Character('ß') };
    assert!(requirements_for_chord(bad).is_err());
}
