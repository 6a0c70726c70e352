use quillspeak::backend::ShortcutTriggerCapabilities;
use quillspeak::config::{
    next_shortcut_id, AppConfig, ShortcutProfile, ShortcutTrigger, DEFAULT_ACCELERATOR,
    DEFAULT_SHORTCUT_ID,
};
use quillspeak::draft::{shortcut_signal_keys, SettingsDraft};
use quillspeak::signals::{resolve_signal_number, SIGUSR1, SIGUSR2};
use quillspeak::whisper::ComputeBackend;

const FACTORY_MODEL_ID: &str = "base-q8_0";

fn default_config() -> AppConfig {
    AppConfig {
        shortcuts: vec![ShortcutProfile::new_profile(
            DEFAULT_SHORTCUT_ID.to_string(),
            "Default".to_string(),
            FACTORY_MODEL_ID.to_string(),
        )],
        compute_backend: ComputeBackend::Auto,
        keep_model_loaded: true,
    }
}

fn default_keyboard() -> ShortcutTrigger {
    ShortcutTrigger::Keyboard { accelerator: DEFAULT_ACCELERATOR.to_string() }
}

#[test]
fn updates_shortcut_by_id_after_removing_another_shortcut() {
    let mut draft = SettingsDraft::new(default_config());
    let first = draft.add_shortcut(
        ShortcutTriggerCapabilities::KeyboardAndSignals,
        FACTORY_MODEL_ID.to_string(),
    );
    let second = draft.add_shortcut(
        ShortcutTriggerCapabilities::KeyboardAndSignals,
        FACTORY_MODEL_ID.to_string(),
    );

    assert!(draft.remove_shortcut(&first.id));
    let mut updated = second.clone();
    updated.output.copy_to_clipboard = false;
    draft.update_shortcut(&second.id, updated);

    assert_eq!(draft.config.shortcuts.len(), 2);
    assert_eq!(draft.config.shortcuts[0].id, DEFAULT_SHORTCUT_ID);
    assert_eq!(draft.config.shortcuts[1].id, second.id);
    assert!(!draft.config.shortcuts[1].output.copy_to_clipboard);
}

#[test]
fn dirty_listener_tracks_unsaved_changes_and_replace() {
    let mut draft = SettingsDraft::new(default_config());
    let mut events = vec![draft.dirty];

    let mut edited = draft.config.shortcuts[0].clone();
    edited.mute_output_while_recording = true;
    if draft.update_shortcut(DEFAULT_SHORTCUT_ID, edited.clone()) {
        events.push(draft.dirty);
    }
    edited.beep_on_recording = true;
    if draft.update_shortcut(DEFAULT_SHORTCUT_ID, edited) {
        events.push(draft.dirty);
    }
    assert_eq!(events, vec![false, true]);

    if draft.replace(default_config()) {
        events.push(draft.dirty);
    }
    assert_eq!(events, vec![false, true, false]);
}

#[test]
fn factory_model_assignment_preserves_unrelated_draft_edits() {
    let mut draft = SettingsDraft::new(default_config());
    let custom = draft.add_shortcut(
        ShortcutTriggerCapabilities::KeyboardAndSignals,
        "tiny".to_string(),
    );
    draft.config.keep_model_loaded = false;
    let mut edited = custom.clone();
    edited.name = "Edited".to_string();
    draft.update_shortcut(&custom.id, edited);

    draft.assign_factory_model_to_shortcuts(FACTORY_MODEL_ID, "small-q8_0");

    assert!(!draft.config.keep_model_loaded);
    assert_eq!(draft.config.shortcuts[0].model_id, "small-q8_0");
    let custom_shortcut = draft
        .config
        .shortcuts
        .iter()
        .find(|shortcut| shortcut.id == custom.id)
        .expect("custom shortcut should remain");
    assert_eq!(custom_shortcut.model_id, "tiny");
    assert_eq!(custom_shortcut.name, "Edited");
}

#[test]
fn default_shortcut_cannot_be_removed() {
    let mut draft = SettingsDraft::new(default_config());

    assert!(!draft.remove_shortcut(DEFAULT_SHORTCUT_ID));
    assert_eq!(draft.config.shortcuts.len(), 1);
    assert!(!draft.dirty);
}

#[test]
fn added_shortcut_uses_signals_when_keyboard_is_unavailable() {
    let mut draft = SettingsDraft::new(default_config());

    let shortcut = draft.add_shortcut(
        ShortcutTriggerCapabilities::SignalsOnly,
        FACTORY_MODEL_ID.to_string(),
    );

    assert_eq!(shortcut.trigger, ShortcutTrigger::default_linux_signal());
}

#[test]
fn added_signal_shortcut_starts_disabled_when_default_pair_is_taken() {
    let mut draft = SettingsDraft::new(default_config());
    draft.coerce_trigger_capabilities(ShortcutTriggerCapabilities::SignalsOnly);

    let shortcut = draft.add_shortcut(
        ShortcutTriggerCapabilities::SignalsOnly,
        FACTORY_MODEL_ID.to_string(),
    );

    assert_eq!(shortcut.trigger, ShortcutTrigger::default_linux_signal());
    assert!(!shortcut.enabled);
    assert!(draft.config.shortcuts[0].enabled);
}

#[test]
fn coerces_keyboard_shortcuts_to_signals_when_keyboard_is_unavailable() {
    let mut draft = SettingsDraft::new(default_config());

    draft.coerce_trigger_capabilities(ShortcutTriggerCapabilities::SignalsOnly);

    assert_eq!(draft.config.shortcuts[0].trigger, ShortcutTrigger::default_linux_signal());
}

#[test]
fn disables_duplicate_signal_profiles_after_keyboard_coercion() {
    let mut draft = SettingsDraft::new(default_config());
    let added = draft.add_shortcut(
        ShortcutTriggerCapabilities::KeyboardAndSignals,
        FACTORY_MODEL_ID.to_string(),
    );

    draft.coerce_trigger_capabilities(ShortcutTriggerCapabilities::SignalsOnly);

    let config = &draft.config;
    assert_eq!(config.shortcuts.len(), 2);
    assert!(config.shortcuts[0].enabled);
    assert_eq!(config.shortcuts[0].trigger, ShortcutTrigger::default_linux_signal());
    let added_shortcut = config
        .shortcuts
        .iter()
        .find(|shortcut| shortcut.id == added.id)
        .expect("added shortcut should remain");
    assert!(!added_shortcut.enabled);
    assert_eq!(added_shortcut.trigger, ShortcutTrigger::default_linux_signal());
}

#[test]
fn keeps_keyboard_shortcuts_when_keyboard_is_available() {
    let mut draft = SettingsDraft::new(default_config());

    draft.coerce_trigger_capabilities(ShortcutTriggerCapabilities::KeyboardAndSignals);

    assert_eq!(draft.config.shortcuts[0].trigger, default_keyboard());
}

#[test]
fn coercion_keeps_distinct_signal_profiles_enabled() {
    let mut config = default_config();
    let mut other = ShortcutProfile::new_profile(
        "other".to_string(),
        "Other".to_string(),
        FACTORY_MODEL_ID.to_string(),
    );
    other.trigger = ShortcutTrigger::LinuxSignal {
        start_signal: "SIGHUP".to_string(),
        stop_signal: "hup".to_string(),
    };
    config.shortcuts.push(other);
    let mut draft = SettingsDraft::new(config);

    draft.coerce_trigger_capabilities(ShortcutTriggerCapabilities::SignalsOnly);

    assert!(draft.config.shortcuts[0].enabled);
    assert!(draft.config.shortcuts[1].enabled);
    assert_eq!(shortcut_signal_keys(&draft.config.shortcuts[1]), Some(vec![1]));
    assert!(!draft.dirty);
}

#[test]
fn default_signal_pair_resolves_to_usr1_and_usr2() {
    assert_eq!(resolve_signal_number("SIGUSR1"), Ok(SIGUSR1));
    assert_eq!(resolve_signal_number("SIGUSR2"), Ok(SIGUSR2));
    let mut profile = default_config().shortcuts[0].clone();
    profile.trigger = ShortcutTrigger::default_linux_signal();
    assert_eq!(shortcut_signal_keys(&profile), Some(vec![SIGUSR1, SIGUSR2]));
}

#[test]
fn next_shortcut_id_takes_the_smallest_free_number() {
    let config = default_config();
    assert_eq!(next_shortcut_id(&config.shortcuts), "shortcut-1");
    let mut shortcuts = config.shortcuts.clone();
    shortcuts.push(ShortcutProfile::new_profile(
        "shortcut-1".to_string(),
        "One".to_string(),
        "tiny".to_string(),
    ));
    shortcuts.push(ShortcutProfile::new_profile(
        "shortcut-3".to_string(),
        "Three".to_string(),
        "tiny".to_string(),
    ));
    assert_eq!(next_shortcut_id(&shortcuts), "shortcut-2");
}

#[test]
fn added_shortcut_is_named_after_its_position() {
    let mut draft = SettingsDraft::new(default_config());
    let added = draft.add_shortcut(
        ShortcutTriggerCapabilities::KeyboardAndSignals,
        "tiny".to_string(),
    );
    assert_eq!(added.name, "Shortcut 2");
    assert_eq!(added.id, "shortcut-1");
    assert!(added.enabled);
    assert_eq!(added.trigger, default_keyboard());
    assert!(draft.dirty);
    assert_eq!(draft.config.shortcuts.len(), 2);
}

#[test]
fn snapshot_copies_the_draft_configuration() {
    let mut draft = SettingsDraft::new(default_config());
    draft.add_shortcut(ShortcutTriggerCapabilities::KeyboardAndSignals, "tiny".to_string());
    let snapshot = draft.snapshot();
    assert_eq!(snapshot, draft.config);
    draft.config.keep_model_loaded = false;
    assert!(snapshot.keep_model_loaded);
}
