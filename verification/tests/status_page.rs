use quillspeak::status_page::{whisper_feature_rows, whisper_status_rows};
use quillspeak::whisper::{ComputeBackend, WhisperRuntimeState, WhisperRuntimeStatus};

fn row(title: &str, value: &str) -> (String, String) {
    (title.to_string(), value.to_string())
}

fn status(state: WhisperRuntimeState) -> WhisperRuntimeStatus {
    WhisperRuntimeStatus {
        configured_compute: ComputeBackend::Auto,
        compiled_backends: "CPU".to_string(),
        whisper_system_info: "AVX = 1".to_string(),
        state,
    }
}

#[test]
fn splits_whisper_system_info_flags() {
    let rows = whisper_feature_rows("AVX = 1 | CUDA = 0 | BLAS = 1");

    assert_eq!(rows, vec![row("AVX", "yes"), row("CUDA", "no"), row("BLAS", "yes")]);
}

#[test]
fn feature_rows_skip_parts_without_key_or_equals_sign() {
    let rows = whisper_feature_rows("NOTHING | = 1 | A = b = c |  ");
    assert_eq!(rows, vec![row("A", "b = c")]);
}

#[test]
fn feature_rows_fall_back_to_the_whole_report() {
    assert_eq!(whisper_feature_rows("unavailable"), vec![row("System info", "unavailable")]);
    assert_eq!(whisper_feature_rows(""), vec![row("System info", "")]);
}

#[test]
fn status_rows_before_a_model_is_loaded() {
    let rows = whisper_status_rows(&status(WhisperRuntimeState::NotLoaded));
    assert_eq!(
        rows,
        vec![
            row("Runtime state", "No model loaded yet"),
            row("Configured compute", "auto"),
            row("Compiled backends", "CPU"),
            row("Active model", "None"),
            row("Effective compute", "Unknown until the first transcription loads a model"),
            row("GPU usage", "Not active"),
        ]
    );
}

#[test]
fn status_rows_of_a_loaded_model() {
    let loaded = |effective: &str, gpu: bool| {
        whisper_status_rows(&status(WhisperRuntimeState::Loaded {
            model_id: "tiny".to_string(),
            effective_compute: effective.to_string(),
            gpu_requested: gpu,
        }))
    };
    let rows = loaded("vulkan", true);
    assert_eq!(rows[0], row("Runtime state", "Loaded"));
    assert_eq!(rows[3], row("Active model", "tiny"));
    assert_eq!(rows[4], row("Effective compute", "vulkan"));
    assert_eq!(rows[5], row("GPU usage", "Active via vulkan"));
    assert_eq!(
        loaded("auto-cpu-fallback", false)[5],
        row("GPU usage", "CPU fallback after auto GPU initialization failed")
    );
    assert_eq!(loaded("cpu", false)[5], row("GPU usage", "CPU"));
}

#[test]
fn status_rows_of_a_failed_load() {
    let rows = whisper_status_rows(&status(WhisperRuntimeState::Failed {
        error: "no such file".to_string(),
    }));
    assert_eq!(rows.len(), 7);
    assert_eq!(rows[0], row("Runtime state", "Failed"));
    assert_eq!(rows[5], row("GPU usage", "Unavailable"));
    assert_eq!(rows[6], row("Last error", "no such file"));
}
