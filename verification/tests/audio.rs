use quillspeak::audio::{
    callback_buffer_samples, collect_capped, debug_audio_setting, duration_ms,
    first_callback_latency, frame_count, max_capture_samples, millis_u64, pad_short_whisper_audio,
    preferred_fixed_buffer_size, sanitize_file_component, skip_transcription_reason,
    stream_config_attempts, stream_instant_nanos_u64, validate_input_config,
    AudioCallbackCounters, CallbackDisposition, DebugAudioDir, StreamConfigAttempt,
    SupportedBufferSize, TranscriptionSkipReason, CALLBACK_BUFFER_SECONDS, MAX_CAPTURE_SECONDS,
    NO_FIRST_CALLBACK_LATENCY,
};

#[test]
fn max_capture_samples_uses_sample_rate_channels_and_duration() {
    assert_eq!(max_capture_samples(16_000, 1), 16_000 * MAX_CAPTURE_SECONDS);
    assert_eq!(max_capture_samples(48_000, 2), 48_000 * 2 * MAX_CAPTURE_SECONDS);
}

#[test]
fn callback_buffer_samples_uses_short_drain_window() {
    assert_eq!(callback_buffer_samples(16_000, 1), 16_000 * CALLBACK_BUFFER_SECONDS);
    assert_eq!(callback_buffer_samples(48_000, 2), 48_000 * 2 * CALLBACK_BUFFER_SECONDS);
}

#[test]
fn capture_sizes_cover_extreme_devices() {
    assert_eq!(
        max_capture_samples(u32::MAX, u16::MAX),
        (u32::MAX as usize) * (u16::MAX as usize) * 60
    );
    assert_eq!(max_capture_samples(0, 2), 0);
}

#[test]
fn preferred_fixed_buffer_size_clamps_to_supported_range() {
    assert_eq!(
        preferred_fixed_buffer_size(SupportedBufferSize::Range { min: 128, max: 2048 }),
        Some(1024)
    );
    assert_eq!(
        preferred_fixed_buffer_size(SupportedBufferSize::Range { min: 2048, max: 4096 }),
        Some(2048)
    );
    assert_eq!(preferred_fixed_buffer_size(SupportedBufferSize::Unknown), None);
    assert_eq!(
        preferred_fixed_buffer_size(SupportedBufferSize::Range { min: 64, max: 512 }),
        Some(512)
    );
}

#[test]
fn stream_attempts_try_fixed_buffer_before_default() {
    assert_eq!(
        stream_config_attempts(SupportedBufferSize::Range { min: 128, max: 2048 }),
        vec![
            StreamConfigAttempt { fixed_buffer_frames: Some(1024), is_fallback: false },
            StreamConfigAttempt { fixed_buffer_frames: None, is_fallback: true },
        ]
    );
    assert_eq!(
        stream_config_attempts(SupportedBufferSize::Unknown),
        vec![StreamConfigAttempt { fixed_buffer_frames: None, is_fallback: true }]
    );
}

#[test]
fn input_config_needs_rate_and_channels() {
    assert_eq!(
        validate_input_config(0, 2),
        Err("input device reported zero sample rate".to_string())
    );
    assert_eq!(
        validate_input_config(48_000, 0),
        Err("input device reported zero channels".to_string())
    );
    assert_eq!(validate_input_config(48_000, 2), Ok(()));
}

#[test]
fn frames_and_durations() {
    assert_eq!(frame_count(96_000, 2), 48_000);
    assert_eq!(frame_count(7, 2), 3);
    assert_eq!(frame_count(10, 0), 0);
    assert_eq!(duration_ms(48_000, 48_000), 1_000);
    assert_eq!(duration_ms(5_461, 16_000), 341);
    assert_eq!(duration_ms(10, 0), 0);
    assert_eq!(stream_instant_nanos_u64(u128::MAX), u64::MAX);
    assert_eq!(stream_instant_nanos_u64(42), 42);
    assert_eq!(millis_u64(u64::MAX as u128 + 1), u64::MAX);
    assert_eq!(first_callback_latency(NO_FIRST_CALLBACK_LATENCY), None);
    assert_eq!(first_callback_latency(5), Some(5));
}

#[test]
fn audio_callback_state_caps_samples_and_counts_drops() {
    let mut counters = AudioCallbackCounters::new();
    // A ring buffer of three slots takes two samples, then one of three.
    assert_eq!(
        counters.record_callback(true, 0, 0, 5_000_000, 0, 2, 2),
        CallbackDisposition::Accepted
    );
    assert_eq!(
        counters.record_callback(true, 10_000_000, 0, 15_000_000, 0, 3, 1),
        CallbackDisposition::Accepted
    );
    assert_eq!(counters.dropped_samples, 2);
    assert_eq!(counters.missed_chunks, 1);
    assert_eq!(counters.callback_count, 2);
    assert_eq!(counters.stale_callback_count, 0);
    assert_eq!(counters.stale_samples, 0);
    assert_eq!(counters.first_callback_latency_ms, 5);
}

#[test]
fn audio_callback_state_discards_stale_callbacks_before_session_floor() {
    let mut counters = AudioCallbackCounters::new();
    let floor = 50_000_000;
    let start = 50_000_000;
    assert_eq!(
        counters.record_callback(true, 40_000_000, floor, 45_000_000, start, 2, 0),
        CallbackDisposition::Stale
    );
    assert_eq!(
        counters.record_callback(true, 55_000_000, floor, 60_000_000, start, 2, 2),
        CallbackDisposition::Accepted
    );
    assert_eq!(counters.callback_count, 1);
    assert_eq!(counters.stale_callback_count, 1);
    assert_eq!(counters.stale_samples, 2);
    assert_eq!(counters.first_callback_latency_ms, 10);
}

#[test]
fn inactive_callbacks_change_nothing() {
    let mut counters = AudioCallbackCounters::new();
    let before = counters;
    assert_eq!(
        counters.record_callback(false, 0, 0, 0, 0, 8, 0),
        CallbackDisposition::Inactive
    );
    assert_eq!(counters, before);
}

#[test]
fn collected_samples_stop_at_the_session_cap() {
    let mut samples = vec![1u8, 2];
    assert_eq!(collect_capped(&mut samples, &[3, 4, 5], 4), 1);
    assert_eq!(samples, vec![1, 2, 3, 4]);
    assert_eq!(collect_capped(&mut samples, &[6], 4), 1);
    assert_eq!(samples, vec![1, 2, 3, 4]);
}

#[test]
fn pads_short_whisper_audio_to_one_second() {
    let mut samples = vec![0.25f32; 5_461];
    pad_short_whisper_audio(&mut samples, 16_000, 0.0);

    assert_eq!(samples.len(), 16_000);
    assert_eq!(samples[0], 0.25);
    assert_eq!(samples[5_460], 0.25);
    assert_eq!(samples[5_461], 0.0);
}

#[test]
fn leaves_long_enough_whisper_audio_unchanged() {
    let mut samples = vec![0.25f32; 16_000];
    pad_short_whisper_audio(&mut samples, 16_000, 0.0);

    assert_eq!(samples.len(), 16_000);
    assert!(samples.iter().all(|sample| *sample == 0.25));
}

#[test]
fn skips_near_silent_capture_after_minimum_duration() {
    assert_eq!(
        skip_transcription_reason(1_000, 1_000, true),
        Some(TranscriptionSkipReason::NearSilent)
    );
}

#[test]
fn audible_capture_is_not_skipped_by_near_silent_threshold() {
    assert_eq!(skip_transcription_reason(1_000, 1_000, false), None);
}

#[test]
fn skips_too_short_capture_before_loading_model() {
    assert_eq!(
        skip_transcription_reason(341, 341, false),
        Some(TranscriptionSkipReason::CaptureTooShort)
    );
    assert_eq!(
        skip_transcription_reason(1_200, 999, true),
        Some(TranscriptionSkipReason::PreparedAudioTooShort)
    );
    assert_eq!(
        TranscriptionSkipReason::NearSilent.label(),
        "captured audio is near silent"
    );
    assert_eq!(
        TranscriptionSkipReason::CaptureTooShort.label(),
        "captured audio is shorter than the minimum transcription duration"
    );
}

#[test]
fn sanitize_file_component_keeps_debug_wav_names_safe() {
    assert_eq!(sanitize_file_component("default"), "default");
    assert_eq!(sanitize_file_component("Ctrl+Alt Space"), "Ctrl_Alt_Space");
    assert_eq!(sanitize_file_component(""), "shortcut");
}

#[test]
fn debug_audio_setting_reads_switches_and_paths() {
    assert_eq!(debug_audio_setting(None), DebugAudioDir::Disabled);
    assert_eq!(debug_audio_setting(Some("")), DebugAudioDir::Disabled);
    assert_eq!(debug_audio_setting(Some("OFF")), DebugAudioDir::Disabled);
    assert_eq!(debug_audio_setting(Some("Yes")), DebugAudioDir::TempDefault);
    assert_eq!(debug_audio_setting(Some("1")), DebugAudioDir::TempDefault);
    assert_eq!(
        debug_audio_setting(Some("/tmp/wavs")),
        DebugAudioDir::Path("/tmp/wavs".to_string())
    );
}
