use quillspeak::models::default_new_shortcut_model;
use quillspeak::clipboard::{OutputAction, PasteShortcut};
use quillspeak::config::{AppConfig, ShortcutProfile, ShortcutTrigger};
use quillspeak::downloads::ModelStatus;
use quillspeak::keyed::KeyedTable;
use quillspeak::models::{ensure_model_unreferenced, model_row_states, referenced_models};
use quillspeak::whisper::ComputeBackend;

fn profile(id: &str, model_id: &str) -> ShortcutProfile {
    ShortcutProfile {
        id: id.to_string(),
        name: id.to_string(),
        enabled: true,
        model_id: model_id.to_string(),
        language: "auto".to_string(),
        trigger: ShortcutTrigger::Keyboard { accelerator: "Ctrl+Space".to_string() },
        output: OutputAction {
            copy_to_clipboard: false,
            paste_from_clipboard: false,
            paste_shortcut: PasteShortcut::CtrlV,
            paste_custom_x11: String::new(),
            paste_custom_wayland: String::new(),
        },
        mute_output_while_recording: false,
        beep_on_recording: false,
        beep_volume_percent: 50,
    }
}

fn config() -> AppConfig {
    AppConfig {
        shortcuts: vec![profile("default", "base"), profile("second", "base"), profile("third", "tiny")],
        compute_backend: ComputeBackend::Cpu,
        keep_model_loaded: false,
    }
}

#[test]
fn referenced_models_lists_each_model_once() {
    let mut models = referenced_models(&config());
    models.sort();
    assert_eq!(models, vec!["base".to_string(), "tiny".to_string()]);
}

#[test]
fn rows_follow_catalogue_order_and_prefer_download_status() {
    let catalog = vec!["tiny".to_string(), "base".to_string(), "large".to_string()];
    let ready = vec!["base".to_string()];
    let mut downloads = KeyedTable::new();
    downloads.insert("tiny".to_string(), ModelStatus::Downloading { downloaded: 1, total: None });
    let rows = model_row_states(&catalog, &ready, &downloads, &config());
    assert_eq!(rows.len(), 3);
    assert_eq!(rows[0].model_id, "tiny");
    assert_eq!(rows[0].status, ModelStatus::Downloading { downloaded: 1, total: None });
    assert!(rows[0].referenced);
    assert_eq!(rows[1].status, ModelStatus::Ready);
    assert!(rows[1].referenced);
    assert_eq!(rows[2].status, ModelStatus::NotInstalled);
    assert!(!rows[2].referenced);
}

#[test]
fn referenced_models_cannot_be_deleted() {
    assert_eq!(
        ensure_model_unreferenced(&config(), "base"),
        Err("model base is still referenced by settings".to_string())
    );
    assert_eq!(ensure_model_unreferenced(&config(), "large"), Ok(()));
}

fn strings(items: &[&str]) -> Vec<String> {
    items.iter().map(|item| item.to_string()).collect()
}

#[test]
fn default_new_shortcut_model_uses_first_ready_catalog_model() {
    let catalog = strings(&["tiny", "base-q8_0", "small-q8_0"]);
    let ready_model_ids = strings(&["small-q8_0", "tiny"]);

    assert_eq!(default_new_shortcut_model(&catalog, &ready_model_ids, "base-q8_0"), "tiny");
}

#[test]
fn default_new_shortcut_model_falls_back_to_builtin_default() {
    let catalog = strings(&["tiny", "base-q8_0", "small-q8_0"]);
    assert_eq!(default_new_shortcut_model(&catalog, &Vec::new(), "base-q8_0"), "base-q8_0");
}
