use quillspeak::clipboard::{OutputCompletion, OutputDelivery};
use quillspeak::recording::{RecordingPhase, RecordingService};
use quillspeak::runtime::{
    quitting_message, recording_duration_limit_applies, records_transcription_history,
    trigger_expired_message, PendingOutputDelivery, RuntimeCore, StopDecision, ToggleDecision,
};
use quillspeak::runtime::{plan_external_trigger, trigger_outcome_response, ExternalTriggerPlan};
use quillspeak::config::{AppConfig, ShortcutProfile};
use quillspeak::trigger::{ExternalTriggerAction, ExternalTriggerRequest, ExternalTriggerResponse};
use quillspeak::whisper::ComputeBackend;

#[test]
fn pending_output_matches_recording_and_completion() {
    let pending = PendingOutputDelivery {
        recording_id: 7,
        shortcut_id: "default".to_string(),
        completion: OutputCompletion::ClipboardPaste,
    };

    assert!(pending.matches(7, "default", OutputCompletion::ClipboardPaste));
    assert!(pending.matches_recording(7, "default"));
    assert!(!pending.matches(7, "default", OutputCompletion::ClipboardCopy));
    assert!(!pending.matches_recording(8, "default"));
    assert!(!pending.matches_recording(7, "other"));
}

#[test]
fn recording_duration_limit_only_applies_to_active_recording() {
    let mut recording = RecordingService::default();

    assert!(!recording_duration_limit_applies(&recording, 1, "default"));
    recording.start_recording(1, "default");
    assert!(recording_duration_limit_applies(&recording, 1, "default"));
    assert!(!recording_duration_limit_applies(&recording, 2, "default"));
    assert!(!recording_duration_limit_applies(&recording, 1, "other"));
    recording.capture_started(1, "default");
    assert!(recording_duration_limit_applies(&recording, 1, "default"));
    recording.stop_recording("default");
    assert!(!recording_duration_limit_applies(&recording, 1, "default"));
}

fn started(core: &mut RuntimeCore<&'static str>, shortcut: &str) -> u64 {
    let id = core.begin_start(shortcut).expect("idle recorder starts");
    core.start_planned(id, shortcut);
    id
}

#[test]
fn dictation_cycle_without_output_returns_to_idle() {
    let mut core: RuntimeCore<&'static str> = RuntimeCore::new();
    let id = started(&mut core, "default");
    assert_eq!(id, 1);
    assert_eq!(core.recording_phase, RecordingPhase::Arming);
    assert_eq!(core.capture_started(id, "default"), RecordingPhase::Recording);
    assert_eq!(core.toggle_decision("default"), ToggleDecision::Stop);
    assert_eq!(core.stop_request("default"), StopDecision::StopCapture(id));
    assert_eq!(core.recording_phase, RecordingPhase::Processing);
    assert!(core.result_applies(id, "default"));
    assert!(!core.result_applies(id + 1, "default"));
    core.transcription_output_applied(id, "default", OutputDelivery::NotQueued);
    assert_eq!(core.recording_phase, RecordingPhase::Idle);
    assert_eq!(core.begin_start("default"), Ok(2));
}

#[test]
fn busy_recorder_refuses_start_and_toggles() {
    let mut core: RuntimeCore<&'static str> = RuntimeCore::new();
    let id = started(&mut core, "default");
    assert_eq!(
        core.begin_start("other"),
        Err("cannot start recording for shortcut 'other': recorder is Arming".to_string())
    );
    assert_eq!(
        core.toggle_decision("other"),
        ToggleDecision::Rejected(
            "toggle ignored for shortcut 'other' because shortcut 'default' is recording"
                .to_string()
        )
    );
    core.capture_started(id, "default");
    core.stop_request("default");
    assert_eq!(
        core.toggle_decision("default"),
        ToggleDecision::Rejected("toggle ignored while a recording is being processed".to_string())
    );
    assert_eq!(
        core.stop_request("default"),
        StopDecision::NoActiveRecording(
            "no active recording to stop for shortcut 'default'".to_string()
        )
    );
}

#[test]
fn stop_during_start_cue_cancels_arming() {
    let mut core: RuntimeCore<&'static str> = RuntimeCore::new();
    let id = started(&mut core, "default");
    core.queue_start_cue(id, "default".to_string(), "plan");
    assert_eq!(core.start_cue_finished(id + 5, "default"), None);
    assert!(core.pending_recording_start.is_some());
    assert_eq!(core.stop_request("default"), StopDecision::CanceledArming);
    assert!(core.pending_recording_start.is_none());
    assert_eq!(core.recording_phase, RecordingPhase::Idle);
    assert_eq!(core.start_cue_finished(id, "default"), None);
}

#[test]
fn start_cue_releases_the_plan_once() {
    let mut core: RuntimeCore<&'static str> = RuntimeCore::new();
    let id = started(&mut core, "default");
    core.queue_start_cue(id, "default".to_string(), "plan");
    assert_eq!(core.start_cue_finished(id, "default"), Some("plan"));
    assert_eq!(core.start_cue_finished(id, "default"), None);
    core.queue_start_cue(id, "default".to_string(), "again");
    assert_eq!(core.take_pending_start(), Some("again"));
    assert_eq!(core.take_pending_start(), None);
}

#[test]
fn failed_capture_start_releases_recorder() {
    let mut core: RuntimeCore<&'static str> = RuntimeCore::new();
    let id = started(&mut core, "default");
    assert_eq!(core.capture_start_failed(id, "default"), RecordingPhase::Idle);
    assert_eq!(core.recording_phase, RecordingPhase::Idle);
}

#[test]
fn clipboard_paste_output_waits_for_paste() {
    let mut core: RuntimeCore<&'static str> = RuntimeCore::new();
    let id = started(&mut core, "default");
    core.capture_started(id, "default");
    core.stop_request("default");
    core.transcription_output_applied(
        id,
        "default",
        OutputDelivery::Queued(OutputCompletion::ClipboardPaste),
    );
    assert_eq!(core.recording_phase, RecordingPhase::Processing);
    assert!(!core.clipboard_copy_finished(id, "default", false));
    assert!(!core.clipboard_paste_finished(id + 1, "default"));
    assert!(core.clipboard_paste_finished(id, "default"));
    assert_eq!(core.recording_phase, RecordingPhase::Idle);
    assert!(core.pending_output.is_none());
}

#[test]
fn failed_copy_ends_a_pending_paste() {
    let mut core: RuntimeCore<&'static str> = RuntimeCore::new();
    let id = started(&mut core, "default");
    core.capture_started(id, "default");
    core.stop_request("default");
    core.transcription_output_applied(
        id,
        "default",
        OutputDelivery::Queued(OutputCompletion::ClipboardPaste),
    );
    assert!(core.clipboard_copy_finished(id, "default", true));
    assert_eq!(core.recording_phase, RecordingPhase::Idle);
}

#[test]
fn script_output_can_hand_over_to_clipboard_copy() {
    let mut core: RuntimeCore<&'static str> = RuntimeCore::new();
    let id = started(&mut core, "default");
    core.capture_started(id, "default");
    core.stop_request("default");
    core.transcription_output_applied(id, "default", OutputDelivery::Queued(OutputCompletion::Script));
    assert!(core.script_result_applies(id, "default"));
    assert!(!core.script_result_applies(id, "other"));
    core.output_script_finished(id + 1, "default", None);
    core.output_script_finished(id, "other", None);
    assert!(core.script_result_applies(id, "default"));
    assert_eq!(core.recording_phase, RecordingPhase::Processing);
    core.output_script_finished(
        id,
        "default",
        Some(OutputDelivery::Queued(OutputCompletion::ClipboardCopy)),
    );
    assert!(!core.script_result_applies(id, "default"));
    core.output_script_finished(id, "default", None);
    assert_eq!(core.recording_phase, RecordingPhase::Processing);
    assert_eq!(core.recording_phase, RecordingPhase::Processing);
    assert!(core.clipboard_copy_finished(id, "default", false));
    assert_eq!(core.recording_phase, RecordingPhase::Idle);
}

#[test]
fn stop_cues_play_once() {
    let mut core: RuntimeCore<&'static str> = RuntimeCore::new();
    core.queue_stop_cue(3, "default");
    core.queue_stop_cue(3, "default");
    core.queue_stop_cue(4, "other");
    assert!(core.take_stop_cue(3, "default"));
    assert!(!core.take_stop_cue(3, "default"));
    assert!(core.take_stop_cue(4, "other"));
    assert!(!core.take_stop_cue(4, "default"));
}

#[test]
fn phase_updates_ask_for_idle_reconcile_after_processing() {
    let mut core: RuntimeCore<&'static str> = RuntimeCore::new();
    let update = core.set_recording_phase(RecordingPhase::Idle);
    assert!(!update.changed);
    core.set_recording_phase(RecordingPhase::Processing);
    let update = core.set_recording_phase(RecordingPhase::Idle);
    assert!(update.changed);
    assert!(update.schedule_idle_reconcile);
}

#[test]
fn recording_ids_wrap_to_one() {
    let mut core: RuntimeCore<&'static str> = RuntimeCore::new();
    core.next_recording_id = u64::MAX;
    assert_eq!(core.allocate_recording_id(), u64::MAX);
    assert_eq!(core.allocate_recording_id(), 1);
}

#[test]
fn quitting_refuses_all_but_shutdown_commands() {
    let mut core: RuntimeCore<&'static str> = RuntimeCore::new();
    assert!(core.accepts_command(false));
    assert!(!core.begin_quit());
    assert!(core.begin_quit());
    assert!(!core.accepts_command(false));
    assert!(core.accepts_command(true));
    assert_eq!(quitting_message(), "MyApp is quitting");
    assert_eq!(
        trigger_expired_message(),
        "trigger request expired before MyApp processed it"
    );
    assert!(records_transcription_history(true, false));
    assert!(!records_transcription_history(true, true));
    assert!(!records_transcription_history(false, false));
}

fn trigger_config() -> AppConfig {
    let mut off = ShortcutProfile::new_profile("off".to_string(), "Off".to_string(), "tiny".to_string());
    off.enabled = false;
    AppConfig {
        shortcuts: vec![
            ShortcutProfile::new_profile("default".to_string(), "Default".to_string(), "tiny".to_string()),
            off,
        ],
        compute_backend: ComputeBackend::Auto,
        keep_model_loaded: true,
    }
}

#[test]
fn external_trigger_plan_resolves_selector_or_refuses() {
    let config = trigger_config();
    let request = ExternalTriggerRequest::new("Default".to_string(), ExternalTriggerAction::Toggle)
        .expect("valid request");
    assert_eq!(
        plan_external_trigger(false, &config, &request),
        ExternalTriggerPlan::Dispatch {
            shortcut_id: "default".to_string(),
            action: ExternalTriggerAction::Toggle
        }
    );
    assert_eq!(
        plan_external_trigger(true, &config, &request),
        ExternalTriggerPlan::Respond(ExternalTriggerResponse::Rejected(trigger_expired_message()))
    );
    let disabled = ExternalTriggerRequest::new("off".to_string(), ExternalTriggerAction::Start)
        .expect("valid request");
    assert_eq!(
        plan_external_trigger(false, &config, &disabled),
        ExternalTriggerPlan::Respond(ExternalTriggerResponse::Rejected(
            "shortcut 'off' is disabled".to_string()
        ))
    );
    assert_eq!(trigger_outcome_response(Ok(())), ExternalTriggerResponse::Accepted);
    assert_eq!(
        trigger_outcome_response(Err("busy".to_string())),
        ExternalTriggerResponse::Rejected("busy".to_string())
    );
}
