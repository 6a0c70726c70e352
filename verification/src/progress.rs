//! Progress reports of a model download: how often they are sent, and how
//! a finished download is judged.
use vstd::prelude::*;

use std::time::Instant;

use crate::cancel::DownloadError;
use crate::clock::{now, saturating_duration_since, whole_nanos};
use crate::downloads::{DownloadId, ModelDownloadOutcome};
use crate::text::{chars_of, push_str, string_from_chars};

verus! {

broadcast use vstd::string::group_string_axioms;

/// Least time between two throttled progress reports, in milliseconds.
pub const PROGRESS_MIN_INTERVAL_MS: u64 = 250;

/// Least growth between two throttled progress reports, in bytes.
pub const PROGRESS_MIN_DELTA_BYTES: u64 = 1024 * 1024;

/// Whether a report is due `elapsed_ms` after the last one, which reported
/// `last_downloaded` bytes: enough time passed and enough bytes came in.
pub open spec fn progress_due(elapsed_ms: int, downloaded: u64, last_downloaded: u64) -> bool {
    elapsed_ms >= PROGRESS_MIN_INTERVAL_MS && downloaded - last_downloaded
        >= PROGRESS_MIN_DELTA_BYTES
}

/// Whether a report is due, given the whole milliseconds since the last
/// report.
pub fn progress_due_after(elapsed_ms: u128, downloaded: u64, last_downloaded: u64) -> (b: bool)
    ensures
        b == progress_due(elapsed_ms as int, downloaded, last_downloaded),
{
    elapsed_ms >= PROGRESS_MIN_INTERVAL_MS as u128 && downloaded.saturating_sub(last_downloaded)
        >= PROGRESS_MIN_DELTA_BYTES
}

/// Whole milliseconds from the clock reading `last` to the reading `now`,
/// both in nanoseconds after a common starting reading; zero where `now` is
/// not after `last`.
pub open spec fn elapsed_ms(now: u128, last: u128) -> int {
    if now >= last {
        (now - last) / 1_000_000
    } else {
        0
    }
}

/// When and at what size progress was last reported. Clock readings are
/// nanoseconds after the download's starting reading.
pub struct ProgressThrottle {
    pub last_emit_nanos: u128,
    pub last_downloaded: u64,
}

impl Default for ProgressThrottle {
    /// A throttle that last reported zero bytes at the starting reading.
    fn default() -> (t: Self)
        ensures
            t.last_emit_nanos == 0,
            t.last_downloaded == 0,
    {
        ProgressThrottle { last_emit_nanos: 0, last_downloaded: 0 }
    }
}

impl ProgressThrottle {
    /// Whether to report `downloaded` bytes at the clock reading
    /// `now_nanos`: at least the minimum interval after the last report and
    /// at least the minimum delta more bytes.
    pub fn should_emit(&self, downloaded: u64, now_nanos: u128) -> (b: bool)
        ensures
            b == progress_due(
                elapsed_ms(now_nanos, self.last_emit_nanos),
                downloaded,
                self.last_downloaded,
            ),
    {
        let ms = now_nanos.saturating_sub(self.last_emit_nanos) / 1_000_000;
        progress_due_after(ms, downloaded, self.last_downloaded)
    }

    /// Records a report of `downloaded` bytes at the reading `now_nanos`.
    pub fn mark_emitted(&mut self, downloaded: u64, now_nanos: u128)
        ensures
            final(self).last_downloaded == downloaded,
            final(self).last_emit_nanos == now_nanos,
    {
        self.last_emit_nanos = now_nanos;
        self.last_downloaded = downloaded;
    }
}

/// Which download message a report is.
#[derive(Debug, Clone, Copy, PartialEq, Eq, Structural)]
pub enum DownloadProgressKind {
    /// Bytes received so far.
    Progress,
    /// All bytes are in and the checksum is being computed.
    Verifying,
}

/// A message of the download worker to the app.
#[derive(Debug, Clone, PartialEq, Eq)]
pub struct DownloadProgressEvent {
    pub kind: DownloadProgressKind,
    pub download_id: DownloadId,
    pub model_id: String,
    pub downloaded: u64,
    pub total: Option<u64>,
}

/// Decides which progress messages one download sends.
pub struct DownloadProgressReporter {
    /// The clock reading the throttle's readings count from.
    pub started: Instant,
    pub download_id: DownloadId,
    pub model_id: String,
    pub total: Option<u64>,
    pub throttle: ProgressThrottle,
}

impl DownloadProgressReporter {
    /// The reported fields of a message of this download.
    pub open spec fn reports(
        &self,
        e: DownloadProgressEvent,
        kind: DownloadProgressKind,
        downloaded: u64,
    ) -> bool {
        &&& e.kind == kind
        &&& e.download_id == self.download_id
        &&& e.model_id@ == self.model_id@
        &&& e.downloaded == downloaded
        &&& e.total == self.total
    }

    /// A reporter for one download of `model_id`, expecting `total` bytes
    /// where known.
    pub fn new(download_id: DownloadId, model_id: &str, total: Option<u64>) -> (r: Self)
        ensures
            r.download_id == download_id,
            r.model_id@ == model_id@,
            r.total == total,
            r.throttle.last_downloaded == 0,
            r.throttle.last_emit_nanos == 0,
    {
        DownloadProgressReporter {
            started: now(),
            download_id,
            model_id: model_id.to_string(),
            total,
            throttle: ProgressThrottle::default(),
        }
    }

    /// Reads the clock, in nanoseconds after the starting reading.
    fn clock_nanos(&self) -> (t: u128) {
        whole_nanos(saturating_duration_since(now(), self.started))
    }

    fn event(&self, kind: DownloadProgressKind, downloaded: u64) -> (e: DownloadProgressEvent)
        ensures
            self.reports(e, kind, downloaded),
    {
        DownloadProgressEvent {
            kind,
            download_id: self.download_id,
            model_id: self.model_id.clone(),
            downloaded,
            total: self.total,
        }
    }

    /// The first report, of zero bytes; the throttle counts from it.
    pub fn send_initial(&mut self) -> (e: DownloadProgressEvent)
        ensures
            old(self).reports(e, DownloadProgressKind::Progress, 0),
            final(self).throttle.last_downloaded == 0,
            final(self).started == old(self).started,
            final(self).download_id == old(self).download_id,
            final(self).model_id == old(self).model_id,
            final(self).total == old(self).total,
    {
        let e = self.event(DownloadProgressKind::Progress, 0);
        let t = self.clock_nanos();
        self.throttle.mark_emitted(0, t);
        e
    }

    /// A report of `downloaded` bytes where the throttle lets one through at
    /// the clock reading taken now, which the throttle then counts from.
    pub fn send_throttled(&mut self, downloaded: u64) -> (e: Option<DownloadProgressEvent>)
        ensures
            final(self).started == old(self).started,
            final(self).download_id == old(self).download_id,
            final(self).model_id == old(self).model_id,
            final(self).total == old(self).total,
            exists|t: u128|
                (e is Some) == #[trigger] progress_due(
                    elapsed_ms(t, old(self).throttle.last_emit_nanos),
                    downloaded,
                    old(self).throttle.last_downloaded,
                ) && (e is Some ==> final(self).throttle.last_emit_nanos == t),
            match e {
                Some(ev) => old(self).reports(ev, DownloadProgressKind::Progress, downloaded)
                    && final(self).throttle.last_downloaded == downloaded,
                None => final(self).throttle == old(self).throttle,
            },
    {
        let t = self.clock_nanos();
        if self.throttle.should_emit(downloaded, t) {
            let e = self.event(DownloadProgressKind::Progress, downloaded);
            self.throttle.mark_emitted(downloaded, t);
            Some(e)
        } else {
            None
        }
    }

    /// The last byte report, sent whatever the throttle says.
    pub fn send_final(&mut self, downloaded: u64) -> (e: DownloadProgressEvent)
        ensures
            old(self).reports(e, DownloadProgressKind::Progress, downloaded),
            final(self).throttle.last_downloaded == downloaded,
            final(self).started == old(self).started,
            final(self).download_id == old(self).download_id,
            final(self).model_id == old(self).model_id,
            final(self).total == old(self).total,
    {
        let e = self.event(DownloadProgressKind::Progress, downloaded);
        let t = self.clock_nanos();
        self.throttle.mark_emitted(downloaded, t);
        e
    }

    /// The message that the checksum of `downloaded` bytes is being
    /// computed.
    pub fn send_verifying(&self, downloaded: u64) -> (e: DownloadProgressEvent)
        ensures
            self.reports(e, DownloadProgressKind::Verifying, downloaded),
    {
        self.event(DownloadProgressKind::Verifying, downloaded)
    }
}

/// How a download worker's result is reported to the app.
pub fn download_outcome(result: Result<(), DownloadError>) -> (o: ModelDownloadOutcome)
    ensures
        o == (match result {
            Ok(()) => ModelDownloadOutcome::Completed,
            Err(DownloadError::Canceled) => ModelDownloadOutcome::Canceled,
            Err(DownloadError::Failed(e)) => ModelDownloadOutcome::Failed(e),
        }),
{
    match result {
        Ok(()) => ModelDownloadOutcome::Completed,
        Err(DownloadError::Canceled) => ModelDownloadOutcome::Canceled,
        Err(DownloadError::Failed(e)) => ModelDownloadOutcome::Failed(e),
    }
}

/// The message of a checksum mismatch.
pub open spec fn hash_mismatch_message(expected: Seq<char>, actual: Seq<char>) -> Seq<char> {
    "downloaded model hash mismatch: expected "@ + expected + ", got "@ + actual
}

/// Compares the downloaded file's SHA-1 with the catalogue's.
pub fn check_model_hash(expected: &str, actual: &str) -> (r: Result<(), DownloadError>)
    ensures
        expected@ == actual@ ==> r is Ok,
        expected@ != actual@ ==> (r matches Err(DownloadError::Failed(m)) && m@
            == hash_mismatch_message(expected@, actual@)),
{
    let e = chars_of(expected);
    let a = chars_of(actual);
    if crate::text::chars_equal(e.as_slice(), a.as_slice()) {
        return Ok(());
    }
    let mut out: Vec<char> = Vec::new();
    push_str(&mut out, "downloaded model hash mismatch: expected ");
    push_str(&mut out, expected);
    push_str(&mut out, ", got ");
    push_str(&mut out, actual);
    Err(DownloadError::Failed(string_from_chars(out.as_slice())))
}

/// Adds a chunk's size to the running byte count.
pub fn add_downloaded(downloaded: u64, chunk: usize) -> (r: u64)
    requires
        downloaded + chunk <= u64::MAX,
    ensures
        r == downloaded + chunk,
{
    downloaded + chunk as u64
}

} // verus!
