use quillspeak::runtime_config::{
    RuntimeShortcut, ShortcutRuntimeBinding, ShortcutRuntimeConfig, CONFIG_SCHEMA_VERSION,
};
use quillspeak::shortcut::{ShortcutChord, ShortcutKey, ShortcutModifiers};

fn binding(id: &str, accelerator: &str, enabled: bool) -> ShortcutRuntimeBinding {
    ShortcutRuntimeBinding {
        id: id.to_string(),
        name: format!("Name {id}"),
        accelerator: accelerator.to_string(),
        enabled,
    }
}

#[test]
fn extracts_runtime_shortcuts() {
    let config = ShortcutRuntimeConfig {
        schema_version: CONFIG_SCHEMA_VERSION,
        shortcuts: vec![ShortcutRuntimeBinding {
            id: "default".to_string(),
            name: "Default".to_string(),
            accelerator: "Ctrl+Alt+F".to_string(),
            enabled: true,
        }],
    };

    let shortcuts = RuntimeShortcut::from_config(&config).expect("valid config");
    let shortcut = shortcuts.first().expect("shortcut");

    assert_eq!(shortcut.id, "default");
    assert_eq!(shortcut.name, "Default");
    assert_eq!(shortcut.accelerator, "Ctrl+Alt+F");
    assert!(shortcut.chord.modifiers.ctrl);
    assert!(shortcut.chord.modifiers.alt);
    assert_eq!(shortcut.chord.key, ShortcutKey::Character('F'));
}

#[test]
fn rejects_runtime_shortcuts_with_wrong_schema() {
    let config = ShortcutRuntimeConfig {
        schema_version: CONFIG_SCHEMA_VERSION - 1,
        shortcuts: Vec::new(),
    };

    assert!(RuntimeShortcut::from_config(&config).is_err());
    assert_eq!(
        config.validate_current_schema(),
        Err(format!("unsupported shortcut config schema version {}", CONFIG_SCHEMA_VERSION - 1))
    );
}

#[test]
fn runtime_shortcuts_skip_disabled_and_blank_bindings() {
    let config = ShortcutRuntimeConfig {
        schema_version: CONFIG_SCHEMA_VERSION,
        shortcuts: vec![
            binding("a", "Ctrl+Space", false),
            binding("b", "   ", true),
            binding("c", "Super+F5", true),
        ],
    };
    let shortcuts = RuntimeShortcut::from_config(&config).expect("valid config");
    assert_eq!(shortcuts.len(), 1);
    assert_eq!(shortcuts[0].id, "c");
    assert!(shortcuts[0].chord.modifiers.super_key);
    assert_eq!(shortcuts[0].chord.key, ShortcutKey::Function(5));
}

#[test]
fn runtime_shortcuts_refuse_an_unreadable_accelerator() {
    let config = ShortcutRuntimeConfig {
        schema_version: CONFIG_SCHEMA_VERSION,
        shortcuts: vec![binding("a", "Ctrl+Space", true), binding("b", "Hyper+X", true)],
    };
    assert_eq!(
        RuntimeShortcut::from_config(&config).map(|v| v.len()),
        Err("failed to parse shortcut Hyper+X: unknown modifier in shortcut".to_string())
    );
}

fn chord(ctrl: bool, alt: bool, shift: bool, super_key: bool, key: ShortcutKey) -> ShortcutChord {
    ShortcutChord { modifiers: ShortcutModifiers { ctrl, alt, shift, super_key }, key }
}

#[test]
fn parses_shortcut_texts() {
    assert_eq!(
        ShortcutChord::parse("Ctrl+Alt+Space"),
        Ok(chord(true, true, false, false, ShortcutKey::Space))
    );
    assert_eq!(
        ShortcutChord::parse(" control + shift + page_up "),
        Ok(chord(true, false, true, false, ShortcutKey::PageUp))
    );
    assert_eq!(ShortcutChord::parse("Meta+f12"), Ok(chord(false, false, false, true, ShortcutKey::Function(12))));
    assert_eq!(ShortcutChord::parse("f"), Ok(chord(false, false, false, false, ShortcutKey::Character('F'))));
    assert_eq!(ShortcutChord::parse("Return"), Ok(chord(false, false, false, false, ShortcutKey::Enter)));
    assert_eq!(ShortcutChord::parse("BackSpace"), Ok(chord(false, false, false, false, ShortcutKey::Backspace)));
}

#[test]
fn refuses_malformed_shortcut_texts() {
    assert_eq!(ShortcutChord::parse(""), Err("shortcut has an empty part".to_string()));
    assert_eq!(ShortcutChord::parse("Ctrl++"), Err("shortcut has an empty part".to_string()));
    assert_eq!(ShortcutChord::parse("Space+Ctrl"), Err("unknown modifier in shortcut".to_string()));
    assert_eq!(ShortcutChord::parse("Ctrl+F25"), Err("unsupported shortcut key".to_string()));
    assert_eq!(ShortcutChord::parse("Ctrl+Spacebar"), Err("unsupported shortcut key".to_string()));
}
