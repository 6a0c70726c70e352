use quillspeak::whisper::recognized_text;
use quillspeak::whisper::{
    context_uses_gpu, system_info_text, thread_count_for, whisper_language,
    CompiledWhisperBackends, ComputeBackend, WhisperRuntimeStatus, AUTO_LANGUAGE_VALUE,
};

fn loaded(effective: &str, gpu: bool) -> WhisperRuntimeStatus {
    WhisperRuntimeStatus::loaded(
        ComputeBackend::Auto,
        "large".to_string(),
        effective.to_string(),
        gpu,
        "AVX = 1".to_string(),
    )
}

#[test]
fn loaded_gpu_status_mentions_gpu_and_effective_compute() {
    let status = loaded("auto-gpu", true);

    let summary = status.summary();
    assert!(summary.contains("GPU via auto-gpu"));
    assert!(summary.contains("configured auto"));
}

#[test]
fn cpu_fallback_status_is_not_reported_as_gpu() {
    let status = loaded("auto-cpu-fallback", false);

    let summary = status.summary();
    assert!(summary.contains("CPU fallback"));
    assert!(!summary.contains("GPU via"));
}

#[test]
fn summary_lists_every_part() {
    let status = WhisperRuntimeStatus::initial(ComputeBackend::Cpu, "unavailable".to_string());
    assert_eq!(
        status.summary(),
        "No model loaded yet; configured cpu; compiled cpu; Whisper unavailable"
    );
    let failed = WhisperRuntimeStatus::failed(
        ComputeBackend::Vulkan,
        "no device".to_string(),
        "x".to_string(),
    );
    assert_eq!(
        failed.summary(),
        "Failed: no device; configured vulkan; compiled cpu; Whisper x"
    );
    assert_eq!(
        loaded("cpu", false).summary(),
        "CPU via cpu; model large; configured auto; compiled cpu; Whisper AVX = 1"
    );
}

#[test]
fn auto_language_maps_to_whisper_auto_detection() {
    assert_eq!(whisper_language(AUTO_LANGUAGE_VALUE), None);
    assert_eq!(whisper_language("uk"), Some("uk"));
}

#[test]
fn cpu_backend_is_supported_without_gpu_feature() {
    assert_eq!(context_uses_gpu(ComputeBackend::Cpu, CompiledWhisperBackends::current()), Ok(false));
}

#[test]
fn auto_backend_is_supported_without_gpu_feature() {
    assert_eq!(context_uses_gpu(ComputeBackend::Auto, CompiledWhisperBackends::current()), Ok(false));
    let gpu = CompiledWhisperBackends { cuda: true, rocm: false, vulkan: false };
    assert_eq!(context_uses_gpu(ComputeBackend::Auto, gpu), Ok(true));
}

#[test]
fn compiled_backends_match_enabled_features() {
    let backends = CompiledWhisperBackends::current();

    assert!(!backends.cuda);
    assert!(!backends.rocm);
    assert!(!backends.vulkan);
    assert_eq!(backends.has_gpu(), backends.cuda || backends.rocm || backends.vulkan);
    assert_eq!(backends.display_label(), "cpu");
    let all = CompiledWhisperBackends { cuda: true, rocm: true, vulkan: true };
    assert_eq!(all.display_label(), "cpu,vulkan,cuda,rocm");
}

#[test]
fn explicit_unsupported_gpu_backends_fail_without_features() {
    let none = CompiledWhisperBackends::current();
    assert_eq!(
        context_uses_gpu(ComputeBackend::Vulkan, none),
        Err("whisper compute backend vulkan is not enabled in this build".to_string())
    );
    assert!(context_uses_gpu(ComputeBackend::Cuda, none).is_err());
    assert!(context_uses_gpu(ComputeBackend::Rocm, none).is_err());
    let rocm = CompiledWhisperBackends { cuda: false, rocm: true, vulkan: false };
    assert_eq!(context_uses_gpu(ComputeBackend::Rocm, rocm), Ok(true));
}

#[test]
fn thread_count_is_clamped() {
    assert_eq!(thread_count_for(Some(1)), 1);
    assert_eq!(thread_count_for(Some(6)), 6);
    assert_eq!(thread_count_for(Some(64)), 8);
    assert_eq!(thread_count_for(None), 4);
}

#[test]
fn system_info_defaults_to_unavailable() {
    assert_eq!(system_info_text(None), "unavailable");
    assert_eq!(system_info_text(Some("  ")), "unavailable");
    assert_eq!(system_info_text(Some(" AVX = 1 ")), "AVX = 1");
}

fn segment(text: &str) -> quillspeak::whisper::TranscriptionSegment {
    quillspeak::whisper::TranscriptionSegment {
        start_centiseconds: 0,
        end_centiseconds: 100,
        text: text.to_string(),
    }
}

#[test]
fn recognized_text_joins_trimmed_nonempty_segments() {
    let segments = vec![segment(" Hello"), segment("   "), segment("world. "), segment("")];
    assert_eq!(recognized_text(&segments), "Hello world.");
    assert_eq!(recognized_text(&Vec::new()), "");
    assert_eq!(recognized_text(&vec![segment("\t \n")]), "");
}
