use quillspeak::cancel::DownloadHandle;
use quillspeak::downloads::{format_size, FinishEffect, ModelDownloadManager, ModelDownloadOutcome, ModelStatus};

const MODEL_ID: &str = "tiny";

#[test]
fn begin_creates_active_download() {
    let mut manager = ModelDownloadManager::default();
    let download_id = manager.begin(MODEL_ID);

    assert_eq!(download_id, Some(0));
    assert!(manager.is_active(MODEL_ID));
    assert!(matches!(
        manager.statuses().get(MODEL_ID),
        Some(ModelStatus::Downloading {
            downloaded: 0,
            total: None,
        })
    ));
}

#[test]
fn duplicate_begin_is_ignored() {
    let mut manager = ModelDownloadManager::default();

    assert_eq!(manager.begin(MODEL_ID), Some(0));
    assert_eq!(manager.begin(MODEL_ID), None);
}

#[test]
fn stale_progress_is_ignored() {
    let mut manager = ModelDownloadManager::default();
    let download_id = manager.begin(MODEL_ID).unwrap();

    assert!(!manager.progress(download_id + 1, MODEL_ID, 50, Some(100)));
    assert_eq!(
        manager.statuses().get(MODEL_ID),
        Some(&ModelStatus::Downloading {
            downloaded: 0,
            total: None,
        })
    );
}

#[test]
fn cancel_moves_status_to_canceling() {
    let mut manager = ModelDownloadManager::default();
    let download_id = manager.begin(MODEL_ID).unwrap();
    assert!(manager.progress(download_id, MODEL_ID, 25, Some(100)));

    manager.cancel(MODEL_ID);

    assert_eq!(
        manager.statuses().get(MODEL_ID),
        Some(&ModelStatus::Canceling {
            downloaded: 25,
            total: Some(100),
        })
    );
}

#[test]
fn progress_after_cancel_is_ignored() {
    let mut manager = ModelDownloadManager::default();
    let download_id = manager.begin(MODEL_ID).unwrap();
    manager.cancel(MODEL_ID);

    assert!(!manager.progress(download_id, MODEL_ID, 25, Some(100)));
    assert!(matches!(
        manager.statuses().get(MODEL_ID),
        Some(ModelStatus::Canceling { .. })
    ));
}

#[test]
fn canceled_finish_returns_to_not_installed_state() {
    let mut manager = ModelDownloadManager::default();
    let download_id = manager.begin(MODEL_ID).unwrap();
    manager.cancel(MODEL_ID);

    let effect = manager.finish(download_id, MODEL_ID, ModelDownloadOutcome::Canceled);

    assert_eq!(effect, FinishEffect::Canceled);
    assert!(!manager.is_active(MODEL_ID));
    assert_eq!(manager.statuses().get(MODEL_ID), None);
}

#[test]
fn failed_finish_records_error() {
    let mut manager = ModelDownloadManager::default();
    let download_id = manager.begin(MODEL_ID).unwrap();

    let effect = manager.finish(
        download_id,
        MODEL_ID,
        ModelDownloadOutcome::Failed("network failed".to_string()),
    );

    assert_eq!(effect, FinishEffect::Failed("network failed".to_string()));
    assert_eq!(
        manager.statuses().get(MODEL_ID),
        Some(&ModelStatus::Error("network failed".to_string()))
    );
}

#[test]
fn completed_finish_clears_transient_status() {
    let mut manager = ModelDownloadManager::default();
    let download_id = manager.begin(MODEL_ID).unwrap();

    let effect = manager.finish(download_id, MODEL_ID, ModelDownloadOutcome::Completed);

    assert_eq!(effect, FinishEffect::Completed);
    assert!(!manager.is_active(MODEL_ID));
    assert_eq!(manager.statuses().get(MODEL_ID), None);
}

#[test]
fn stale_finish_changes_nothing() {
    let mut manager = ModelDownloadManager::default();
    let download_id = manager.begin(MODEL_ID).unwrap();

    assert_eq!(
        manager.finish(download_id + 7, MODEL_ID, ModelDownloadOutcome::Completed),
        FinishEffect::Stale
    );
    assert!(manager.is_active(MODEL_ID));
    assert!(manager.verifying(download_id, MODEL_ID, 10, Some(10)));
    assert_eq!(
        manager.statuses().get(MODEL_ID),
        Some(&ModelStatus::Verifying { downloaded: 10, total: Some(10) })
    );
}

#[test]
fn cancel_returns_attached_handle_only_for_current_download() {
    let mut manager = ModelDownloadManager::default();
    let first = manager.begin("base").unwrap();
    let second = manager.begin("small").unwrap();
    assert_eq!(second, first + 1);

    manager.attach_handle("base", first + 5, DownloadHandle::new_for_test());
    assert!(manager.cancel("base").is_none());
    let worker_side = DownloadHandle::new_for_test();
    manager.attach_handle("small", second, worker_side.clone());
    let handle = manager.cancel("small").expect("attached handle");
    assert!(!worker_side.is_canceled());
    handle.cancel();
    assert!(handle.is_canceled());
    assert!(worker_side.is_canceled());
    assert!(manager.cancel("missing").is_none());
    assert_eq!(manager.statuses().get("missing"), None);
}

#[test]
fn set_error_replaces_status() {
    let mut manager = ModelDownloadManager::default();
    manager.set_error("large", "disk full".to_string());
    assert_eq!(
        manager.statuses().get("large"),
        Some(&ModelStatus::Error("disk full".to_string()))
    );
}

#[test]
fn downloading_status_formats_known_progress() {
    let status = ModelStatus::Downloading {
        downloaded: 50 * 1024 * 1024,
        total: Some(100 * 1024 * 1024),
    };

    assert_eq!(
        status.progress_label().as_deref(),
        Some("50 MiB of 100 MiB · 50%")
    );
    assert_eq!(status.label(), "Downloading 50 MiB of 100 MiB · 50%");
}

#[test]
fn canceling_status_keeps_progress_visible() {
    let status = ModelStatus::Canceling {
        downloaded: 2 * 1024 * 1024,
        total: None,
    };

    assert_eq!(status.progress_label().as_deref(), Some("2 MiB downloaded"));
    assert_eq!(status.label(), "Canceling 2 MiB downloaded");
}

#[test]
fn verifying_status_keeps_download_progress_visible() {
    let status = ModelStatus::Verifying {
        downloaded: 100 * 1024 * 1024,
        total: Some(100 * 1024 * 1024),
    };

    assert_eq!(status.label(), "Verifying 100 MiB of 100 MiB · 100%");
}

#[test]
fn format_size_switches_to_gib_with_one_decimal() {
    assert_eq!(format_size(0), "0 MiB");
    assert_eq!(format_size(1024 * 1024 + 1024 * 512), "2 MiB");
    assert_eq!(format_size(1024 * 512), "0 MiB");
    assert_eq!(format_size(3 * 1024 * 1024 * 1024 / 2), "1.5 GiB");
    assert_eq!(format_size(1024 * 1024 * 1024), "1.0 GiB");
    assert_eq!(format_size(1_600_000_000), "1.5 GiB");
}

#[test]
fn simple_status_labels() {
    assert_eq!(ModelStatus::Ready.label(), "Ready");
    assert_eq!(ModelStatus::NotInstalled.label(), "Not installed");
    assert_eq!(ModelStatus::Error("boom".to_string()).label(), "Error: boom");
    assert_eq!(ModelStatus::Ready.progress_label(), None);
    assert_eq!(ModelStatus::Ready.download_progress(), None);
}
