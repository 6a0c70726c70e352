use quillspeak::backend::ShortcutTriggerCapabilities;
use quillspeak::config::{
    config_load_action, config_schema_version, default_config_for_shortcut_capabilities,
    schema_version_value, ConfigLoadAction, SIGNAL_SHORTCUT_ID,
};
use quillspeak::runtime_config::CONFIG_SCHEMA_VERSION;
use quillspeak::clipboard::{OutputAction, PasteShortcut};
use quillspeak::config::{
    build_transcription_plan, config_with_factory_shortcut_models, resolve_shortcut_selector,
    shortcut_beeps, shortcut_by_id, trigger_summary, AppConfig, ShortcutProfile, ShortcutTrigger,
    DEFAULT_SHORTCUT_ID,
};
use quillspeak::signals::{
    configured_signal_numbers, is_registerable_signal, resolve_signal_number, SIGTERM, SIGUSR1,
    SIGUSR2,
};
use quillspeak::whisper::ComputeBackend;

const FACTORY_MODEL_ID: &str = "base-q8_0";

fn output() -> OutputAction {
    OutputAction {
        copy_to_clipboard: false,
        paste_from_clipboard: false,
        paste_shortcut: PasteShortcut::CtrlV,
        paste_custom_x11: String::new(),
        paste_custom_wayland: String::new(),
    }
}

fn profile(id: &str, name: &str, model_id: &str) -> ShortcutProfile {
    ShortcutProfile {
        id: id.to_string(),
        name: name.to_string(),
        enabled: true,
        model_id: model_id.to_string(),
        language: "auto".to_string(),
        trigger: ShortcutTrigger::Keyboard { accelerator: "Ctrl+Alt+Space".to_string() },
        output: output(),
        mute_output_while_recording: false,
        beep_on_recording: false,
        beep_volume_percent: 50,
    }
}

fn default_config() -> AppConfig {
    AppConfig {
        shortcuts: vec![profile(DEFAULT_SHORTCUT_ID, "Default", FACTORY_MODEL_ID)],
        compute_backend: ComputeBackend::Auto,
        keep_model_loaded: true,
    }
}

#[test]
fn resolves_shortcut_by_id_before_name() {
    let mut config = default_config();
    config.shortcuts.push(profile("Default", "Other", FACTORY_MODEL_ID));

    assert_eq!(resolve_shortcut_selector(&config, "Default").unwrap(), "Default");
}

#[test]
fn resolves_shortcut_by_unique_name() {
    let mut config = default_config();
    config.shortcuts.push(profile("shortcut-2", "To English", FACTORY_MODEL_ID));

    assert_eq!(resolve_shortcut_selector(&config, "To English").unwrap(), "shortcut-2");
}

#[test]
fn rejects_duplicate_or_disabled_shortcuts() {
    let mut config = default_config();
    config.shortcuts.push(profile("shortcut-2", "Duplicate", FACTORY_MODEL_ID));
    config.shortcuts.push(profile("shortcut-3", "Duplicate", FACTORY_MODEL_ID));
    config.shortcuts[0].enabled = false;

    assert!(resolve_shortcut_selector(&config, "Duplicate").is_err());
    assert!(resolve_shortcut_selector(&config, "default").is_err());
    assert!(resolve_shortcut_selector(&config, "Missing").is_err());
    assert_eq!(
        resolve_shortcut_selector(&config, "Duplicate"),
        Err("shortcut name 'Duplicate' is ambiguous".to_string())
    );
    assert_eq!(
        resolve_shortcut_selector(&config, "default"),
        Err("shortcut 'default' is disabled".to_string())
    );
    assert_eq!(
        resolve_shortcut_selector(&config, "Missing"),
        Err("shortcut 'Missing' was not found".to_string())
    );
}

#[test]
fn disabled_id_match_blocks_name_fallback() {
    let mut config = default_config();
    config.shortcuts.push(profile("legacy", "Spare", FACTORY_MODEL_ID));
    config.shortcuts.push(profile("shortcut-2", "legacy", FACTORY_MODEL_ID));
    let legacy_index = config
        .shortcuts
        .iter()
        .position(|shortcut| shortcut.id == "legacy")
        .expect("legacy shortcut should exist");
    config.shortcuts[legacy_index].enabled = false;

    assert!(resolve_shortcut_selector(&config, "legacy").is_err());
}

#[test]
fn disabled_unique_name_match_is_reported_by_name() {
    let mut config = default_config();
    let mut spare = profile("shortcut-2", "Spare", FACTORY_MODEL_ID);
    spare.enabled = false;
    config.shortcuts.push(spare);
    assert_eq!(
        resolve_shortcut_selector(&config, "Spare"),
        Err("shortcut 'Spare' is disabled".to_string())
    );
}

#[test]
fn config_with_factory_shortcut_models_updates_all_factory_model_shortcuts() {
    let mut config = default_config();
    config.shortcuts.push(profile("signal", "Signal", FACTORY_MODEL_ID));

    let updated = config_with_factory_shortcut_models(config, FACTORY_MODEL_ID, "small-q8_0")
        .expect("factory model shortcuts exist");

    assert_eq!(updated.shortcuts[0].model_id, "small-q8_0");
    assert_eq!(updated.shortcuts[1].model_id, "small-q8_0");
}

#[test]
fn config_with_factory_shortcut_models_preserves_custom_model_shortcuts() {
    let mut config = default_config();
    config.shortcuts.push(profile("custom", "Custom", "tiny"));

    let updated = config_with_factory_shortcut_models(config, FACTORY_MODEL_ID, "small-q8_0")
        .expect("factory model shortcut exists");

    assert_eq!(updated.shortcuts[0].model_id, "small-q8_0");
    assert_eq!(updated.shortcuts[1].model_id, "tiny");
}

#[test]
fn config_without_factory_model_is_left_alone() {
    let mut config = default_config();
    config.shortcuts[0].model_id = "tiny".to_string();
    assert!(config_with_factory_shortcut_models(config, FACTORY_MODEL_ID, "small").is_none());
}

#[test]
fn rejects_shortcut_when_model_is_not_ready() {
    let config = default_config();
    let ready = Vec::new();

    let result = build_transcription_plan(
        &config,
        &ready,
        Some("/models/base.bin".to_string()),
        true,
        1,
        DEFAULT_SHORTCUT_ID,
    );

    assert_eq!(
        result,
        Err("model base-q8_0 is not downloaded; open Settings > Models and download it first"
            .to_string())
    );
}

#[test]
fn plan_snapshots_current_shortcut_settings() {
    let config = default_config();
    let ready = vec![FACTORY_MODEL_ID.to_string()];

    let plan = build_transcription_plan(
        &config,
        &ready,
        Some("/models/base.bin".to_string()),
        true,
        7,
        DEFAULT_SHORTCUT_ID,
    )
    .expect("ready model should build a plan");

    assert_eq!(plan.recording_id, 7);
    assert_eq!(plan.shortcut_id, DEFAULT_SHORTCUT_ID);
    assert_eq!(plan.model_id, FACTORY_MODEL_ID);
    assert_eq!(plan.model_path, "/models/base.bin");
    assert!(!plan.mute_output_while_recording);
    assert!(!plan.beep_on_recording);
    assert_eq!(plan.beep_volume_percent, config.shortcuts[0].beep_volume_percent);
    assert_eq!(plan.compute_backend, ComputeBackend::Auto);
}

#[test]
fn plan_snapshots_shortcut_mute_output() {
    let mut config = default_config();
    config.shortcuts[0].mute_output_while_recording = true;
    let ready = vec![FACTORY_MODEL_ID.to_string()];

    let plan = build_transcription_plan(&config, &ready, Some("m.bin".to_string()), true, 8, DEFAULT_SHORTCUT_ID)
        .expect("ready model should build a plan");

    assert!(plan.mute_output_while_recording);
}

#[test]
fn plan_snapshots_shortcut_beep_setting() {
    let mut config = default_config();
    config.shortcuts[0].beep_on_recording = true;
    config.shortcuts[0].beep_volume_percent = 35;
    let ready = vec![FACTORY_MODEL_ID.to_string()];

    let plan = build_transcription_plan(&config, &ready, Some("m.bin".to_string()), true, 9, DEFAULT_SHORTCUT_ID)
        .expect("ready model should build a plan");

    assert!(plan.beep_on_recording);
    assert_eq!(plan.beep_volume_percent, 35);
    assert!(shortcut_beeps(&config, DEFAULT_SHORTCUT_ID));
    assert!(!shortcut_beeps(&config, "missing"));
}

#[test]
fn plan_errors_name_what_is_missing() {
    let config = default_config();
    let ready = vec![FACTORY_MODEL_ID.to_string()];
    assert_eq!(
        build_transcription_plan(&config, &ready, None, true, 1, "nope"),
        Err("unknown shortcut nope".to_string())
    );
    assert_eq!(
        build_transcription_plan(&config, &ready, None, true, 1, DEFAULT_SHORTCUT_ID),
        Err("unknown model base-q8_0".to_string())
    );
    assert_eq!(
        build_transcription_plan(&config, &ready, Some("/m.bin".to_string()), false, 1, DEFAULT_SHORTCUT_ID),
        Err("model file is missing even though inventory marks it ready: /m.bin".to_string())
    );
    assert!(shortcut_by_id(&config, DEFAULT_SHORTCUT_ID).is_some());
}

#[test]
fn trigger_summaries() {
    assert_eq!(
        trigger_summary(&ShortcutTrigger::Keyboard { accelerator: "Ctrl+Space".to_string() }),
        "keyboard:Ctrl+Space"
    );
    assert_eq!(
        trigger_summary(&ShortcutTrigger::LinuxSignal {
            start_signal: "SIGUSR1".to_string(),
            stop_signal: "SIGUSR1".to_string(),
        }),
        "signal:SIGUSR1:start-stop"
    );
    assert_eq!(
        trigger_summary(&ShortcutTrigger::LinuxSignal {
            start_signal: "SIGUSR1".to_string(),
            stop_signal: "SIGUSR2".to_string(),
        }),
        "signal:SIGUSR1->SIGUSR2"
    );
}

#[test]
fn maps_registered_signal_numbers_to_names() {
    assert_eq!(resolve_signal_number("SIGUSR1").unwrap(), SIGUSR1);
    assert_eq!(resolve_signal_number("User 2").unwrap(), SIGUSR2);
    assert_eq!(resolve_signal_number("12").unwrap(), 12);
    assert!(resolve_signal_number("nope").is_err());
    assert!(resolve_signal_number("0").is_err());
    assert_eq!(resolve_signal_number(" sig-term ").unwrap(), SIGTERM);
    assert_eq!(resolve_signal_number(""), Err("signal is empty".to_string()));
    assert_eq!(resolve_signal_number("-3"), Err("signal number must be positive".to_string()));
    assert_eq!(resolve_signal_number("nope"), Err("unsupported Linux signal: NOPE".to_string()));
    assert_eq!(
        resolve_signal_number("99999999999"),
        Err("unsupported Linux signal: 99999999999".to_string())
    );
}

#[test]
fn skips_unresolved_and_reserved_configured_signals() {
    let mut config = default_config();
    config.shortcuts[0].trigger = ShortcutTrigger::LinuxSignal {
        start_signal: "SIGUSR1".to_string(),
        stop_signal: "SIGTERM".to_string(),
    };

    assert_eq!(configured_signal_numbers(&config), vec![SIGUSR1]);
    assert!(!is_registerable_signal(SIGTERM));
    assert!(!is_registerable_signal(9));
    assert!(is_registerable_signal(SIGUSR2));
}

#[test]
fn configured_signals_are_sorted_and_unique() {
    let mut config = default_config();
    config.shortcuts[0].trigger = ShortcutTrigger::LinuxSignal {
        start_signal: "USR2".to_string(),
        stop_signal: "USR2".to_string(),
    };
    let mut second = profile("b", "B", FACTORY_MODEL_ID);
    second.trigger = ShortcutTrigger::LinuxSignal {
        start_signal: "34".to_string(),
        stop_signal: "SIGUSR1".to_string(),
    };
    config.shortcuts.push(second);
    let mut disabled = profile("c", "C", FACTORY_MODEL_ID);
    disabled.enabled = false;
    disabled.trigger = ShortcutTrigger::LinuxSignal {
        start_signal: "SIGWINCH".to_string(),
        stop_signal: "SIGWINCH".to_string(),
    };
    config.shortcuts.push(disabled);
    assert_eq!(configured_signal_numbers(&config), vec![SIGUSR1, SIGUSR2, 34]);
}

fn starting_base() -> quillspeak::config::AppConfig {
    quillspeak::config::AppConfig {
        shortcuts: vec![quillspeak::config::ShortcutProfile::new_profile(
            "default".to_string(),
            "Default".to_string(),
            "base-q8_0".to_string(),
        )],
        compute_backend: quillspeak::whisper::ComputeBackend::Auto,
        keep_model_loaded: true,
    }
}

#[test]
fn new_config_defaults_to_signals_without_keyboard_grabs() {
    let config = default_config_for_shortcut_capabilities(ShortcutTriggerCapabilities::SignalsOnly, starting_base());
    assert_eq!(config.shortcuts.len(), 1);
    assert_eq!(config.shortcuts[0].id, "default");
    assert_eq!(
        config.shortcuts[0].trigger,
        ShortcutTrigger::LinuxSignal {
            start_signal: "SIGUSR1".to_string(),
            stop_signal: "SIGUSR2".to_string()
        }
    );
}

#[test]
fn new_config_adds_signal_shortcut_beside_keyboard() {
    let config =
        default_config_for_shortcut_capabilities(ShortcutTriggerCapabilities::KeyboardAndSignals, starting_base());
    assert_eq!(config.shortcuts.len(), 2);
    assert_eq!(
        config.shortcuts[0].trigger,
        ShortcutTrigger::Keyboard { accelerator: "Ctrl+Alt+Space".to_string() }
    );
    assert_eq!(config.shortcuts[1].id, SIGNAL_SHORTCUT_ID);
    assert_eq!(config.shortcuts[1].model_id, "default");
    assert_eq!(config.shortcuts[1].trigger, ShortcutTrigger::default_linux_signal());
}

#[test]
fn settings_file_of_another_schema_is_replaced() {
    assert_eq!(config_load_action(false, None), ConfigLoadAction::CreateDefault);
    assert_eq!(config_load_action(true, Some(CONFIG_SCHEMA_VERSION)), ConfigLoadAction::ParseExisting);
    for old in [4, 7, 8, 9, 10] {
        assert_eq!(config_load_action(true, Some(old)), ConfigLoadAction::ReplaceWithDefault);
    }
    assert_eq!(config_load_action(true, None), ConfigLoadAction::ReplaceWithDefault);
    assert_eq!(schema_version_value(Some(10)), Some(10));
    assert_eq!(schema_version_value(Some(-1)), None);
    assert_eq!(schema_version_value(Some(1 << 40)), None);
    assert_eq!(schema_version_value(None), None);
}

#[test]
fn settings_file_schema_version_is_read_from_toml() {
    assert_eq!(config_schema_version("schema_version = 11\n\n[general]\nmode = \"push_to_talk\"\n"), Some(11));
    assert_eq!(config_schema_version("schema_version = 4\n"), Some(4));
    assert_eq!(config_schema_version("schema_version = -3\n"), None);
    assert_eq!(config_schema_version("schema_version = \"11\"\n"), None);
    assert_eq!(config_schema_version("[general]\nschema_version = 11\n"), None);
    assert_eq!(config_schema_version("this is = = not toml"), None);
    assert_eq!(config_schema_version(""), None);
}
