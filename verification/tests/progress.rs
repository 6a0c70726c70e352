use std::time::Duration;

use quillspeak::cancel::DownloadError;
use quillspeak::downloads::ModelDownloadOutcome;
use quillspeak::progress::{
    add_downloaded, check_model_hash, download_outcome, progress_due_after,
    DownloadProgressKind, DownloadProgressReporter, ProgressThrottle, PROGRESS_MIN_DELTA_BYTES,
    PROGRESS_MIN_INTERVAL_MS,
};

const PROGRESS_MIN_INTERVAL: Duration = Duration::from_millis(PROGRESS_MIN_INTERVAL_MS);

#[test]
fn progress_throttle_suppresses_too_frequent_updates() {
    let start: u128 = 5_000_000_000;
    let mut throttle = ProgressThrottle::default();
    throttle.mark_emitted(0, start);

    assert!(!throttle.should_emit(PROGRESS_MIN_DELTA_BYTES, start));
    assert!(!throttle.should_emit(
        PROGRESS_MIN_DELTA_BYTES,
        start + PROGRESS_MIN_INTERVAL.as_nanos() - Duration::from_millis(1).as_nanos()
    ));
}

#[test]
fn progress_throttle_requires_minimum_byte_delta() {
    let start: u128 = 5_000_000_000;
    let mut throttle = ProgressThrottle::default();
    throttle.mark_emitted(0, start);

    assert!(!throttle.should_emit(PROGRESS_MIN_DELTA_BYTES - 1, start + PROGRESS_MIN_INTERVAL.as_nanos()));
}

#[test]
fn progress_throttle_emits_after_interval_and_delta() {
    let start: u128 = 5_000_000_000;
    let mut throttle = ProgressThrottle::default();
    throttle.mark_emitted(0, start);

    assert!(throttle.should_emit(PROGRESS_MIN_DELTA_BYTES, start + PROGRESS_MIN_INTERVAL.as_nanos()));
}

#[test]
fn progress_due_needs_time_and_bytes() {
    assert!(progress_due_after(250, PROGRESS_MIN_DELTA_BYTES, 0));
    assert!(!progress_due_after(249, PROGRESS_MIN_DELTA_BYTES, 0));
    assert!(!progress_due_after(1_000, 10, 20));
    assert!(progress_due_after(1_000, 3 * PROGRESS_MIN_DELTA_BYTES, PROGRESS_MIN_DELTA_BYTES));
}

#[test]
fn progress_reporter_always_emits_final_progress() {
    let mut reporter =
        DownloadProgressReporter::new(7, "ggml-base", Some(PROGRESS_MIN_DELTA_BYTES));

    let mut events = Vec::new();
    events.push(reporter.send_initial());
    events.extend(reporter.send_throttled(512));
    events.push(reporter.send_final(PROGRESS_MIN_DELTA_BYTES));

    assert_eq!(events.len(), 2);
    assert_eq!(events[0].kind, DownloadProgressKind::Progress);
    assert_eq!(events[0].download_id, 7);
    assert_eq!(events[0].model_id, "ggml-base");
    assert_eq!(events[0].downloaded, 0);
    assert_eq!(events[0].total, Some(PROGRESS_MIN_DELTA_BYTES));
    assert_eq!(events[1].kind, DownloadProgressKind::Progress);
    assert_eq!(events[1].downloaded, PROGRESS_MIN_DELTA_BYTES);
    assert_eq!(events[1].total, Some(PROGRESS_MIN_DELTA_BYTES));

    let verifying = reporter.send_verifying(PROGRESS_MIN_DELTA_BYTES);
    assert_eq!(verifying.kind, DownloadProgressKind::Verifying);
    assert_eq!(verifying.model_id, "ggml-base");
}

#[test]
fn download_results_map_to_outcomes() {
    assert_eq!(download_outcome(Ok(())), ModelDownloadOutcome::Completed);
    assert_eq!(
        download_outcome(Err(DownloadError::Canceled)),
        ModelDownloadOutcome::Canceled
    );
    assert_eq!(
        download_outcome(Err(DownloadError::Failed("disk full".to_string()))),
        ModelDownloadOutcome::Failed("disk full".to_string())
    );
}

#[test]
fn hash_mismatch_names_both_digests() {
    assert_eq!(check_model_hash("abc", "abc"), Ok(()));
    assert_eq!(
        check_model_hash("abc", "def"),
        Err(DownloadError::Failed(
            "downloaded model hash mismatch: expected abc, got def".to_string()
        ))
    );
    assert_eq!(add_downloaded(10, 5), 15);
}

#[test]
fn progress_throttle_counts_whole_milliseconds_from_the_last_report() {
    let mut throttle = ProgressThrottle::default();
    throttle.mark_emitted(PROGRESS_MIN_DELTA_BYTES, 1_000);
    let due = 1_000 + 250_000_000;
    assert!(throttle.should_emit(2 * PROGRESS_MIN_DELTA_BYTES, due));
    assert!(!throttle.should_emit(2 * PROGRESS_MIN_DELTA_BYTES, due - 1));
    assert!(!throttle.should_emit(2 * PROGRESS_MIN_DELTA_BYTES, 0));
    assert!(!throttle.should_emit(2 * PROGRESS_MIN_DELTA_BYTES - 1, due));
}
