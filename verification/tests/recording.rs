use quillspeak::recording::{RecordingPhase, RecordingService};

#[test]
fn duplicate_start_and_stop_are_safe() {
    let mut service = RecordingService::default();

    assert_eq!(service.phase(), RecordingPhase::Idle);
    assert_eq!(service.start_recording(1, "default"), RecordingPhase::Arming);
    assert_eq!(service.capture_started(1, "default"), RecordingPhase::Recording);
    assert_eq!(service.start_recording(2, "default"), RecordingPhase::Recording);

    let (phase, recording_id) = service.stop_recording("default");
    assert_eq!(phase, RecordingPhase::Processing);
    assert_eq!(recording_id, Some(1));
    assert_eq!(service.stop_recording("default").0, RecordingPhase::Processing);
    let (phase, accepted) = service.finish_processing(1, "default", &Ok(()));
    assert_eq!(phase, RecordingPhase::Idle);
    assert!(accepted);
    assert_eq!(service.stop_recording("default").0, RecordingPhase::Idle);
}

#[test]
fn arming_recording_can_be_canceled_before_capture_starts() {
    let mut service = RecordingService::default();

    assert_eq!(service.start_recording(7, "default"), RecordingPhase::Arming);
    assert_eq!(service.cancel_arming(7, "default"), RecordingPhase::Idle);
    assert_eq!(service.active_recording_id(), None);
}

#[test]
fn processing_finishes_only_for_active_shortcut() {
    let mut service = RecordingService::default();

    let (phase, accepted) = service.finish_processing(1, "default", &Ok(()));
    assert_eq!(phase, RecordingPhase::Idle);
    assert!(!accepted);
    assert_eq!(service.start_recording(1, "default"), RecordingPhase::Arming);
    assert_eq!(service.capture_started(1, "default"), RecordingPhase::Recording);
    assert_eq!(service.stop_recording("default").0, RecordingPhase::Processing);
    let (phase, accepted) = service.finish_processing(1, "second", &Ok(()));
    assert_eq!(phase, RecordingPhase::Processing);
    assert!(!accepted);
    let (phase, accepted) = service.finish_processing(1, "default", &Ok(()));
    assert_eq!(phase, RecordingPhase::Idle);
    assert!(accepted);
}

#[test]
fn ignores_stop_for_inactive_shortcut() {
    let mut service = RecordingService::default();
    service.start_recording(1, "default");
    service.capture_started(1, "default");

    let (phase, recording_id) = service.stop_recording("second");

    assert_eq!(phase, RecordingPhase::Recording);
    assert_eq!(recording_id, None);
    assert_eq!(service.active_shortcut_id(), Some("default"));
}

#[test]
fn stop_while_arming_moves_to_processing() {
    let mut service = RecordingService::default();
    service.start_recording(1, "default");

    let (phase, recording_id) = service.stop_recording("default");

    assert_eq!(phase, RecordingPhase::Processing);
    assert_eq!(recording_id, Some(1));
    assert_eq!(service.capture_started(1, "default"), RecordingPhase::Processing);
}

#[test]
fn start_failure_resets_arming_recording() {
    let mut service = RecordingService::default();
    service.start_recording(1, "default");

    assert_eq!(service.start_failed(1, "default"), RecordingPhase::Idle);
    assert_eq!(service.active_shortcut_id(), None);
}

#[test]
fn stale_transcription_result_is_rejected_by_recording_id() {
    let mut service = RecordingService::default();
    service.start_recording(1, "default");
    service.capture_started(1, "default");
    assert_eq!(service.stop_recording("default").1, Some(1));

    let (phase, accepted) = service.finish_processing(2, "default", &Ok(()));

    assert_eq!(phase, RecordingPhase::Processing);
    assert!(!accepted);
    assert_eq!(service.active_recording_id(), Some(1));
    assert_eq!(service.active_shortcut_id(), Some("default"));
}

#[test]
fn transcription_error_finishes_active_processing() {
    let mut service = RecordingService::default();
    service.start_recording(1, "default");
    service.capture_started(1, "default");
    assert_eq!(service.stop_recording("default").1, Some(1));

    let (phase, accepted) =
        service.finish_processing::<()>(1, "default", &Err("transcription failed".into()));

    assert_eq!(phase, RecordingPhase::Idle);
    assert!(accepted);
    assert_eq!(service.active_recording_id(), None);
    assert_eq!(service.active_shortcut_id(), None);
}

#[test]
fn start_failure_while_processing_releases_recording() {
    let mut service = RecordingService::default();
    service.start_recording(3, "default");
    service.stop_recording("default");

    assert_eq!(service.start_failed(3, "other"), RecordingPhase::Processing);
    assert!(service.is_processing(3, "default"));
    assert_eq!(service.start_failed(3, "default"), RecordingPhase::Idle);
    assert!(!service.is_processing(3, "default"));
}

#[test]
fn cancel_arming_ignores_other_recordings_and_later_phases() {
    let mut service = RecordingService::default();
    service.start_recording(5, "default");

    assert_eq!(service.cancel_arming(6, "default"), RecordingPhase::Arming);
    assert_eq!(service.capture_started(5, "default"), RecordingPhase::Recording);
    assert_eq!(service.cancel_arming(5, "default"), RecordingPhase::Recording);
    assert_eq!(service.active_recording_id(), Some(5));
}

#[test]
fn full_cycle_returns_to_idle_law_example() {
    let mut service = RecordingService::default();
    assert_eq!(service.start_recording(9, "dictate"), RecordingPhase::Arming);
    assert_eq!(service.capture_started(9, "dictate"), RecordingPhase::Recording);
    assert_eq!(service.stop_recording("dictate"), (RecordingPhase::Processing, Some(9)));
    assert_eq!(service.finish_processing(9, "dictate", &Ok(1u8)), (RecordingPhase::Idle, true));
    assert_eq!(service.active_shortcut_id(), None);
}
