use quillspeak::shortcut::{ShortcutChord, ShortcutKey, ShortcutModifiers};
use quillspeak::x11keys::{
    ensure_trigger_mapped, keycode_is_down, keycodes_for_any_keysym, keysyms_for_key,
    modifier_mask_variants, resolve_grab, KeyboardMapping, X11ActiveShortcuts, X11Grab,
    KEYSYM_CONTROL_L, KEYSYM_F1, KEYSYM_SPACE, MOD_CONTROL, MOD_LOCK, MOD_M1, MOD_M2,
};

fn ctrl_alt_space() -> ShortcutChord {
    ShortcutChord {
        modifiers: ShortcutModifiers { ctrl: true, alt: true, shift: false, super_key: false },
        key: ShortcutKey::Space,
    }
}

#[test]
fn creates_lock_modifier_mask_variants() {
    let variants = modifier_mask_variants(ctrl_alt_space());

    assert_eq!(variants.len(), 4);
    assert!(variants.contains(&(MOD_CONTROL | MOD_M1)));
    assert!(variants.contains(&(MOD_CONTROL | MOD_M1 | MOD_LOCK)));
    assert!(variants.contains(&(MOD_CONTROL | MOD_M1 | MOD_M2)));
    assert!(variants.contains(&(MOD_CONTROL | MOD_M1 | MOD_LOCK | MOD_M2)));
}

#[test]
fn detects_keycode_down_in_x11_keymap() {
    let mut keymap = [0; 32];
    keymap[57 / 8] = 1 << (57 % 8);

    assert!(keycode_is_down(&keymap, 57));
    assert!(!keycode_is_down(&keymap, 58));
    assert!(!keycode_is_down(&keymap, 56));
}

#[test]
fn keysyms_cover_both_letter_cases() {
    assert_eq!(keysyms_for_key(ShortcutKey::Character('f')), vec![b'F' as u32, b'f' as u32]);
    assert_eq!(keysyms_for_key(ShortcutKey::Character('F')), vec![b'F' as u32, b'f' as u32]);
    assert_eq!(keysyms_for_key(ShortcutKey::Character('1')), vec![b'1' as u32]);
    assert_eq!(keysyms_for_key(ShortcutKey::Space), vec![KEYSYM_SPACE]);
    assert_eq!(keysyms_for_key(ShortcutKey::Function(3)), vec![KEYSYM_F1 + 2]);
    assert_eq!(keysyms_for_key(ShortcutKey::Function(0)), vec![KEYSYM_F1]);
}

fn mapping() -> KeyboardMapping {
    // Keycodes 8..=11, two keysyms each.
    KeyboardMapping {
        min_keycode: 8,
        max_keycode: 11,
        keysyms_per_keycode: 2,
        keysyms: vec![
            KEYSYM_CONTROL_L, 0,
            KEYSYM_SPACE, 0,
            0xffe9, 0xffea,
            KEYSYM_SPACE,
        ],
    }
}

#[test]
fn keycodes_are_found_by_keysym() {
    assert_eq!(keycodes_for_any_keysym(&mapping(), &vec![KEYSYM_SPACE]), Ok(vec![9]));
    assert_eq!(keycodes_for_any_keysym(&mapping(), &vec![0xffea]), Ok(vec![10]));
    assert_eq!(keycodes_for_any_keysym(&mapping(), &vec![0x41]), Ok(vec![]));
    let bad = KeyboardMapping { min_keycode: 10, max_keycode: 9, keysyms_per_keycode: 1, keysyms: vec![] };
    assert_eq!(
        keycodes_for_any_keysym(&bad, &vec![KEYSYM_SPACE]),
        Err("invalid X11 keycode range".to_string())
    );
}

#[test]
fn grab_requires_every_chord_key() {
    let grab = resolve_grab(ctrl_alt_space(), &mapping()).expect("grab");
    assert_eq!(grab.trigger_keycodes, vec![9]);
    assert_eq!(grab.required_keycode_groups, vec![vec![8], vec![10], vec![9]]);
    let mut keymap = [0u8; 32];
    keymap[1] = 0b0000_0101; // keycodes 8 and 10
    assert!(!grab.is_pressed_in(&keymap));
    keymap[1] |= 0b0000_0010; // keycode 9
    assert!(grab.is_pressed_in(&keymap));
    assert!(grab.triggered_by(9));
    assert!(!grab.triggered_by(8));
    assert_eq!(ensure_trigger_mapped(&grab, "Ctrl+Alt+Space"), Ok(()));
    let unmapped = X11Grab { trigger_keycodes: vec![], required_keycode_groups: vec![] };
    assert_eq!(
        ensure_trigger_mapped(&unmapped, "Ctrl+F"),
        Err("X11 shortcut trigger key has no keycode mapping for Ctrl+F".to_string())
    );
}

#[test]
fn shortcuts_start_once_and_stop_on_release() {
    let mut active = X11ActiveShortcuts::new();
    assert!(!active.key_pressed("default", true, false));
    assert!(active.key_pressed("default", true, true));
    assert!(!active.key_pressed("default", true, true));
    assert!(!active.key_released("default", true));
    assert!(active.key_released("default", false));
    assert!(!active.key_released("default", false));
    assert!(active.key_pressed("other", true, true));
    assert_eq!(active.release_all(), vec!["other".to_string()]);
    assert!(active.release_all().is_empty());
}
