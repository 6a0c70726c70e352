//! Bookkeeping of model downloads: which download of a model is current,
//! what the settings page shows for it, and what its completion does.
use vstd::prelude::*;

use crate::cancel::DownloadHandle;
use crate::keyed::KeyedTable;
use crate::text::{push_decimal, push_str, string_from_chars};

verus! {

/// The id of one download attempt.
pub type DownloadId = u64;

/// How a download worker ended.
#[derive(Debug, Clone, PartialEq, Eq)]
pub enum ModelDownloadOutcome {
    Completed,
    Canceled,
    Failed(String),
}

/// The state of a model as the settings page shows it.
#[derive(Debug, Clone, PartialEq, Eq)]
pub enum ModelStatus {
    Ready,
    NotInstalled,
    Downloading { downloaded: u64, total: Option<u64> },
    Verifying { downloaded: u64, total: Option<u64> },
    Canceling { downloaded: u64, total: Option<u64> },
    Error(String),
}

/// [`ModelStatus`] with the error message as characters.
pub enum ModelStatusView {
    Ready,
    NotInstalled,
    Downloading { downloaded: u64, total: Option<u64> },
    Verifying { downloaded: u64, total: Option<u64> },
    Canceling { downloaded: u64, total: Option<u64> },
    Error(Seq<char>),
}

impl View for ModelStatus {
    type V = ModelStatusView;

    open spec fn view(&self) -> ModelStatusView {
        match self {
            ModelStatus::Ready => ModelStatusView::Ready,
            ModelStatus::NotInstalled => ModelStatusView::NotInstalled,
            ModelStatus::Downloading { downloaded, total } => ModelStatusView::Downloading {
                downloaded: *downloaded,
                total: *total,
            },
            ModelStatus::Verifying { downloaded, total } => ModelStatusView::Verifying {
                downloaded: *downloaded,
                total: *total,
            },
            ModelStatus::Canceling { downloaded, total } => ModelStatusView::Canceling {
                downloaded: *downloaded,
                total: *total,
            },
            ModelStatus::Error(e) => ModelStatusView::Error(e@),
        }
    }
}

impl ModelStatusView {
    /// Bytes downloaded and expected, for the states that show progress.
    pub open spec fn progress(self) -> Option<(u64, Option<u64>)> {
        match self {
            ModelStatusView::Downloading { downloaded, total } => Some((downloaded, total)),
            ModelStatusView::Verifying { downloaded, total } => Some((downloaded, total)),
            ModelStatusView::Canceling { downloaded, total } => Some((downloaded, total)),
            _ => None,
        }
    }

    /// Whether the download is being canceled.
    pub open spec fn is_canceling(self) -> bool {
        self is Canceling
    }
}

/// `n / d` rounded to the nearest integer, ties to the even one.
pub open spec fn div_round_half_even(n: nat, d: nat) -> nat
    recommends
        d > 0,
{
    let q = n / d;
    let r = n % d;
    if 2 * r > d {
        q + 1
    } else if 2 * r < d {
        q
    } else if q % 2 == 0 {
        q
    } else {
        q + 1
    }
}

/// Bytes in a mebibyte.
pub open spec fn mib() -> nat {
    1048576
}

/// Bytes in a gibibyte.
pub open spec fn gib() -> nat {
    1073741824
}

/// A byte count as whole MiB below 1 GiB and as GiB with one decimal
/// from 1 GiB on, rounded to nearest with ties to even.
pub open spec fn size_text(bytes: nat) -> Seq<char> {
    if bytes >= gib() {
        let tenths = div_round_half_even(bytes * 10, gib());
        crate::text::decimal(tenths / 10) + seq!['.'] + crate::text::decimal(tenths % 10)
            + " GiB"@
    } else {
        crate::text::decimal(div_round_half_even(bytes, mib())) + " MiB"@
    }
}

fn div_round_half_even_exec(n: u128, d: u128) -> (r: u128)
    requires
        d > 0,
        n <= u64::MAX as u128 * 10,
    ensures
        r == div_round_half_even(n as nat, d as nat),
{
    let q = n / d;
    let r = n % d;
    assert(q <= n);
    if r > d - r {
        q + 1
    } else if r < d - r {
        q
    } else if q % 2 == 0 {
        q
    } else {
        q + 1
    }
}

/// Appends the size text of `bytes` to `out`.
fn push_size(out: &mut Vec<char>, bytes: u64)
    ensures
        final(out)@ == old(out)@ + size_text(bytes as nat),
{
    if bytes >= 1073741824 {
        let tenths = div_round_half_even_exec(bytes as u128 * 10, 1073741824);
        assert((bytes as u128 * 10) / 1073741824 <= 200000000000) by (nonlinear_arith)
            requires
                bytes <= u64::MAX,
        ;
        let whole = (tenths / 10) as u64;
        let frac = (tenths % 10) as u64;
        push_decimal(out, whole);
        out.push('.');
        push_decimal(out, frac);
        push_str(out, " GiB");
    } else {
        let m = div_round_half_even_exec(bytes as u128, 1048576);
        assert(m <= 1025);
        push_decimal(out, m as u64);
        push_str(out, " MiB");
    }
}

/// The size text of a byte count, as in the settings page.
pub fn format_size(bytes: u64) -> (s: String)
    ensures
        s@ == size_text(bytes as nat),
{
    let mut out: Vec<char> = Vec::new();
    push_size(&mut out, bytes);
    string_from_chars(out.as_slice())
}

/// The progress text of a status that shows progress: sizes and percent
/// when the total is known and positive, otherwise the downloaded size.
pub open spec fn progress_text(downloaded: u64, total: Option<u64>) -> Seq<char> {
    match total {
        Some(t) if t > 0 => size_text(downloaded as nat) + " of "@ + size_text(t as nat) + " · "@
            + crate::text::decimal(sat_percent(downloaded, t)) + "%"@,
        _ => size_text(downloaded as nat) + " downloaded"@,
    }
}

/// `downloaded * 100` saturated at `u64::MAX`, divided by `total`.
pub open spec fn sat_percent(downloaded: u64, total: u64) -> nat
    recommends
        total > 0,
{
    let p = if downloaded * 100 > u64::MAX {
        u64::MAX as nat
    } else {
        (downloaded * 100) as nat
    };
    p / (total as nat)
}

/// The label of a status.
pub open spec fn status_label(s: ModelStatusView) -> Seq<char> {
    match s {
        ModelStatusView::Ready => "Ready"@,
        ModelStatusView::NotInstalled => "Not installed"@,
        ModelStatusView::Downloading { downloaded, total } => "Downloading "@ + progress_text(
            downloaded,
            total,
        ),
        ModelStatusView::Verifying { downloaded, total } => "Verifying "@ + progress_text(
            downloaded,
            total,
        ),
        ModelStatusView::Canceling { downloaded, total } => "Canceling "@ + progress_text(
            downloaded,
            total,
        ),
        ModelStatusView::Error(e) => "Error: "@ + e,
    }
}

fn push_progress(out: &mut Vec<char>, downloaded: u64, total: Option<u64>)
    ensures
        final(out)@ == old(out)@ + progress_text(downloaded, total),
{
    match total {
        Some(t) if t > 0 => {
            let scaled = if downloaded > u64::MAX / 100 {
                u64::MAX
            } else {
                downloaded * 100
            };
            let percent = scaled / t;
            push_size(out, downloaded);
            push_str(out, " of ");
            push_size(out, t);
            push_str(out, " · ");
            push_decimal(out, percent);
            push_str(out, "%");
        },
        _ => {
            push_size(out, downloaded);
            push_str(out, " downloaded");
        },
    }
}

impl ModelStatus {
    /// Bytes downloaded and expected, for the states that show progress.
    pub fn download_progress(&self) -> (r: Option<(u64, Option<u64>)>)
        ensures
            r == self@.progress(),
    {
        match self {
            ModelStatus::Downloading { downloaded, total } => Some((*downloaded, *total)),
            ModelStatus::Verifying { downloaded, total } => Some((*downloaded, *total)),
            ModelStatus::Canceling { downloaded, total } => Some((*downloaded, *total)),
            _ => None,
        }
    }

    /// The progress text, for the states that show progress.
    pub fn progress_label(&self) -> (r: Option<String>)
        ensures
            match self@.progress() {
                Some((d, t)) => r is Some && r->0@ == progress_text(d, t),
                None => r is None,
            },
    {
        match self.download_progress() {
            Some((downloaded, total)) => {
                let mut out: Vec<char> = Vec::new();
                push_progress(&mut out, downloaded, total);
                Some(string_from_chars(out.as_slice()))
            },
            None => None,
        }
    }

    /// The label shown next to the model.
    pub fn label(&self) -> (s: String)
        ensures
            s@ == status_label(self@),
    {
        let mut out: Vec<char> = Vec::new();
        match self {
            ModelStatus::Ready => push_str(&mut out, "Ready"),
            ModelStatus::NotInstalled => push_str(&mut out, "Not installed"),
            ModelStatus::Downloading { downloaded, total } => {
                push_str(&mut out, "Downloading ");
                push_progress(&mut out, *downloaded, *total);
            },
            ModelStatus::Verifying { downloaded, total } => {
                push_str(&mut out, "Verifying ");
                push_progress(&mut out, *downloaded, *total);
            },
            ModelStatus::Canceling { downloaded, total } => {
                push_str(&mut out, "Canceling ");
                push_progress(&mut out, *downloaded, *total);
            },
            ModelStatus::Error(e) => {
                push_str(&mut out, "Error: ");
                push_str(&mut out, e.as_str());
            },
        }
        string_from_chars(out.as_slice())
    }
}

/// What finishing a download did.
#[derive(Debug, Clone, PartialEq, Eq)]
pub enum FinishEffect {
    Completed,
    Canceled,
    Failed(String),
    Stale,
}

/// The download of a model that is under way.
#[derive(Debug)]
pub struct ActiveDownload {
    download_id: DownloadId,
    handle: Option<DownloadHandle>,
}

impl View for ActiveDownload {
    /// The download id and the cancel handle attached to it, if any.
    type V = (DownloadId, Option<DownloadHandle>);

    closed spec fn view(&self) -> (DownloadId, Option<DownloadHandle>) {
        (self.download_id, self.handle)
    }
}

/// The abstract state of a [`ModelDownloadManager`].
pub struct DownloadsState {
    pub next_download_id: DownloadId,
    pub active: Map<Seq<char>, (DownloadId, Option<DownloadHandle>)>,
    pub statuses: Map<Seq<char>, ModelStatusView>,
}

impl DownloadsState {
    /// Every model with a download under way has a status.
    pub open spec fn consistent(self) -> bool {
        self.active.dom().subset_of(self.statuses.dom())
    }

    /// Whether `download_id` is the download under way for `model`.
    pub open spec fn is_current(self, download_id: DownloadId, model: Seq<char>) -> bool {
        self.active.contains_key(model) && self.active[model].0 == download_id
    }

    /// Whether the status of `model` is canceling.
    pub open spec fn is_canceling(self, model: Seq<char>) -> bool {
        self.statuses.contains_key(model) && self.statuses[model] is Canceling
    }

    /// `next + 1`, saturating.
    pub open spec fn bumped(next: DownloadId) -> DownloadId {
        if next == u64::MAX {
            next
        } else {
            (next + 1) as u64
        }
    }

    /// A download begins unless one is under way for the model.
    pub open spec fn after_begin(self, model: Seq<char>) -> DownloadsState {
        if self.active.contains_key(model) {
            self
        } else {
            DownloadsState {
                next_download_id: Self::bumped(self.next_download_id),
                active: self.active.insert(model, (self.next_download_id, None)),
                statuses: self.statuses.insert(
                    model,
                    ModelStatusView::Downloading { downloaded: 0, total: None },
                ),
            }
        }
    }

    /// A cancel handle is attached to the current download it belongs to.
    pub open spec fn after_attach(self, model: Seq<char>, download_id: DownloadId, handle: DownloadHandle) -> DownloadsState {
        if self.is_current(download_id, model) {
            DownloadsState { active: self.active.insert(model, (download_id, Some(handle))), ..self }
        } else {
            self
        }
    }

    /// Canceling a download under way keeps its progress and marks it canceling.
    pub open spec fn after_cancel(self, model: Seq<char>) -> DownloadsState {
        if self.active.contains_key(model) {
            let (d, t) = if self.statuses.contains_key(model) && self.statuses[model].progress() is Some {
                self.statuses[model].progress()->0
            } else {
                (0u64, None)
            };
            DownloadsState {
                statuses: self.statuses.insert(
                    model,
                    ModelStatusView::Canceling { downloaded: d, total: t },
                ),
                ..self
            }
        } else {
            self
        }
    }

    /// Whether a progress or verifying report is taken.
    pub open spec fn report_applies(self, download_id: DownloadId, model: Seq<char>) -> bool {
        self.is_current(download_id, model) && !self.is_canceling(model)
    }

    /// A taken report replaces the status.
    pub open spec fn after_report(self, download_id: DownloadId, model: Seq<char>, status: ModelStatusView) -> DownloadsState {
        if self.report_applies(download_id, model) {
            DownloadsState { statuses: self.statuses.insert(model, status), ..self }
        } else {
            self
        }
    }

    /// The end of the current download: it is no longer under way, and its
    /// status is cleared, or set to the error when it failed.
    pub open spec fn after_finish(self, download_id: DownloadId, model: Seq<char>, failure: Option<Seq<char>>) -> DownloadsState {
        if !self.is_current(download_id, model) {
            self
        } else {
            DownloadsState {
                active: self.active.remove(model),
                statuses: match failure {
                    Some(e) => self.statuses.insert(model, ModelStatusView::Error(e)),
                    None => self.statuses.remove(model),
                },
                ..self
            }
        }
    }
}

/// The failure message of an outcome, if it failed.
pub open spec fn outcome_failure(outcome: ModelDownloadOutcome) -> Option<Seq<char>> {
    match outcome {
        ModelDownloadOutcome::Failed(e) => Some(e@),
        _ => None,
    }
}

/// Tracks the download under way for each model and each model's status.
#[derive(Debug)]
pub struct ModelDownloadManager {
    next_download_id: DownloadId,
    active_downloads: KeyedTable<ActiveDownload>,
    statuses: KeyedTable<ModelStatus>,
}

impl View for ModelDownloadManager {
    type V = DownloadsState;

    closed spec fn view(&self) -> DownloadsState {
        DownloadsState {
            next_download_id: self.next_download_id,
            active: self.active_downloads@,
            statuses: self.statuses@,
        }
    }
}

impl Default for ModelDownloadManager {
    fn default() -> (m: Self)
        ensures
            m@.next_download_id == 0,
            m@.active == Map::<Seq<char>, (DownloadId, Option<DownloadHandle>)>::empty(),
            m@.statuses == Map::<Seq<char>, ModelStatusView>::empty(),
            m.well_formed(),
    {
        ModelDownloadManager {
            next_download_id: 0,
            active_downloads: KeyedTable::new(),
            statuses: KeyedTable::new(),
        }
    }
}

impl ModelDownloadManager {
    /// The tables are well formed and the state is consistent.
    pub closed spec fn well_formed(&self) -> bool {
        &&& self.active_downloads.well_formed()
        &&& self.statuses.well_formed()
        &&& self@.consistent()
    }

    /// The status of each model that has one.
    pub fn statuses(&self) -> (t: &KeyedTable<ModelStatus>)
        requires
            self.well_formed(),
        ensures
            t@ == self@.statuses,
            t.well_formed(),
    {
        &self.statuses
    }

    /// Starts a download of `model_id` and returns its id, unless one is
    /// under way for that model.
    pub fn begin(&mut self, model_id: &str) -> (r: Option<DownloadId>)
        requires
            old(self).well_formed(),
        ensures
            final(self).well_formed(),
            final(self)@ == old(self)@.after_begin(model_id@),
            r == (if old(self)@.active.contains_key(model_id@) {
                None
            } else {
                Some(old(self)@.next_download_id)
            }),
    {
        if self.active_downloads.contains_key(model_id) {
            return None;
        }
        let download_id = self.next_download_id;
        self.next_download_id = if download_id == u64::MAX {
            download_id
        } else {
            download_id + 1
        };
        self.active_downloads.insert(
            model_id.to_owned(),
            ActiveDownload { download_id, handle: None },
        );
        self.statuses.insert(
            model_id.to_owned(),
            ModelStatus::Downloading { downloaded: 0, total: None },
        );
        Some(download_id)
    }

    /// Attaches the cancel handle of a download, if it is still the current one.
    pub fn attach_handle(&mut self, model_id: &str, download_id: DownloadId, handle: DownloadHandle)
        requires
            old(self).well_formed(),
        ensures
            final(self).well_formed(),
            final(self)@ == old(self)@.after_attach(model_id@, download_id, handle),
    {
        if self.is_current(download_id, model_id) {
            self.active_downloads.insert(
                model_id.to_owned(),
                ActiveDownload { download_id, handle: Some(handle) },
            );
        }
    }

    /// Marks the download under way as canceling and returns the cancel
    /// handle attached to it, if one was: the very handle `attach_handle`
    /// stored, sharing its flag.
    pub fn cancel(&mut self, model_id: &str) -> (r: Option<DownloadHandle>)
        requires
            old(self).well_formed(),
        ensures
            final(self).well_formed(),
            final(self)@ == old(self)@.after_cancel(model_id@),
            r == (if old(self)@.active.contains_key(model_id@) {
                old(self)@.active[model_id@].1
            } else {
                None
            }),
    {
        let handle = match self.active_downloads.get(model_id) {
            Some(active) => match &active.handle {
                Some(h) => Some(h.clone()),
                None => None,
            },
            None => {
                return None;
            },
        };
        let (downloaded, total) = match self.statuses.get(model_id) {
            Some(status) => match status.download_progress() {
                Some(p) => p,
                None => (0, None),
            },
            None => (0, None),
        };
        self.statuses.insert(model_id.to_owned(), ModelStatus::Canceling { downloaded, total });
        handle
    }

    /// Records the progress of the current download; false when the report
    /// is stale or the download is being canceled.
    pub fn progress(&mut self, download_id: DownloadId, model_id: &str, downloaded: u64, total: Option<u64>) -> (b: bool)
        requires
            old(self).well_formed(),
        ensures
            final(self).well_formed(),
            b == old(self)@.report_applies(download_id, model_id@),
            final(self)@ == old(self)@.after_report(
                download_id,
                model_id@,
                ModelStatusView::Downloading { downloaded, total },
            ),
    {
        if !self.is_current(download_id, model_id) || self.is_canceling(model_id) {
            return false;
        }
        self.statuses.insert(model_id.to_owned(), ModelStatus::Downloading { downloaded, total });
        true
    }

    /// Records that the current download is being verified; false when the
    /// report is stale or the download is being canceled.
    pub fn verifying(&mut self, download_id: DownloadId, model_id: &str, downloaded: u64, total: Option<u64>) -> (b: bool)
        requires
            old(self).well_formed(),
        ensures
            final(self).well_formed(),
            b == old(self)@.report_applies(download_id, model_id@),
            final(self)@ == old(self)@.after_report(
                download_id,
                model_id@,
                ModelStatusView::Verifying { downloaded, total },
            ),
    {
        if !self.is_current(download_id, model_id) || self.is_canceling(model_id) {
            return false;
        }
        self.statuses.insert(model_id.to_owned(), ModelStatus::Verifying { downloaded, total });
        true
    }

    /// Ends the current download with its outcome; a stale download changes nothing.
    pub fn finish(&mut self, download_id: DownloadId, model_id: &str, outcome: ModelDownloadOutcome) -> (e: FinishEffect)
        requires
            old(self).well_formed(),
        ensures
            final(self).well_formed(),
            final(self)@ == old(self)@.after_finish(download_id, model_id@, outcome_failure(outcome)),
            !old(self)@.is_current(download_id, model_id@) ==> e == FinishEffect::Stale,
            old(self)@.is_current(download_id, model_id@) ==> match outcome {
                ModelDownloadOutcome::Completed => e == FinishEffect::Completed,
                ModelDownloadOutcome::Canceled => e == FinishEffect::Canceled,
                ModelDownloadOutcome::Failed(m) => e is Failed && e->Failed_0@ == m@,
            },
    {
        if !self.is_current(download_id, model_id) {
            return FinishEffect::Stale;
        }
        self.active_downloads.remove(model_id);
        match outcome {
            ModelDownloadOutcome::Completed => {
                self.statuses.remove(model_id);
                FinishEffect::Completed
            },
            ModelDownloadOutcome::Canceled => {
                self.statuses.remove(model_id);
                FinishEffect::Canceled
            },
            ModelDownloadOutcome::Failed(error) => {
                self.statuses.insert(model_id.to_owned(), ModelStatus::Error(error.clone()));
                FinishEffect::Failed(error)
            },
        }
    }

    /// Whether a download is under way for the model.
    pub fn is_active(&self, model_id: &str) -> (b: bool)
        requires
            self.well_formed(),
        ensures
            b == self@.active.contains_key(model_id@),
    {
        self.active_downloads.contains_key(model_id)
    }

    /// Sets the model's status to an error.
    pub fn set_error(&mut self, model_id: &str, error: String)
        requires
            old(self).well_formed(),
        ensures
            final(self).well_formed(),
            final(self)@ == (DownloadsState {
                statuses: old(self)@.statuses.insert(model_id@, ModelStatusView::Error(error@)),
                ..old(self)@
            }),
    {
        self.statuses.insert(model_id.to_owned(), ModelStatus::Error(error));
    }

    /// Whether `download_id` is the download under way for the model.
    fn is_current(&self, download_id: DownloadId, model_id: &str) -> (b: bool)
        requires
            self.well_formed(),
        ensures
            b == self@.is_current(download_id, model_id@),
    {
        match self.active_downloads.get(model_id) {
            Some(active) => active.download_id == download_id,
            None => false,
        }
    }

    /// Whether the model's status is canceling.
    fn is_canceling(&self, model_id: &str) -> (b: bool)
        requires
            self.well_formed(),
        ensures
            b == self@.is_canceling(model_id@),
    {
        match self.statuses.get(model_id) {
            Some(ModelStatus::Canceling { .. }) => true,
            _ => false,
        }
    }
}

/// Every transition keeps a consistent state consistent.
pub proof fn lemma_downloads_consistent(s: DownloadsState, model: Seq<char>, download_id: DownloadId, handle: DownloadHandle, status: ModelStatusView, failure: Option<Seq<char>>)
    requires
        s.consistent(),
    ensures
        s.after_begin(model).consistent(),
        s.after_attach(model, download_id, handle).consistent(),
        s.after_cancel(model).consistent(),
        s.after_report(download_id, model, status).consistent(),
        s.after_finish(download_id, model, failure).consistent(),
{
}

/// A second begin for a model whose download is under way changes nothing.
pub proof fn lemma_duplicate_begin_ignored(s: DownloadsState, model: Seq<char>)
    ensures
        s.after_begin(model).active.contains_key(model),
        s.after_begin(model).after_begin(model) == s.after_begin(model),
{
}

/// A report for any id other than the current download's changes nothing.
pub proof fn lemma_stale_report_ignored(s: DownloadsState, model: Seq<char>, download_id: DownloadId, status: ModelStatusView)
    requires
        !s.is_current(download_id, model),
    ensures
        !s.report_applies(download_id, model),
        s.after_report(download_id, model, status) == s,
        s.after_finish(download_id, model, None) == s,
{
}

/// Once a download is canceled, its progress and verifying reports change
/// nothing until it finishes.
pub proof fn lemma_reports_ignored_after_cancel(s: DownloadsState, model: Seq<char>, download_id: DownloadId, status: ModelStatusView)
    requires
        s.active.contains_key(model),
    ensures
        s.after_cancel(model).is_canceling(model),
        !s.after_cancel(model).report_applies(download_id, model),
        s.after_cancel(model).after_report(download_id, model, status) == s.after_cancel(model),
{
}

/// A download that begins, whatever was reported or canceled in between,
/// ends with the model no longer under way; completed or canceled, the
/// model has no status left, and failed, its status is the error.
pub proof fn lemma_finish_clears_download(s: DownloadsState, model: Seq<char>, failure: Option<Seq<char>>)
    requires
        !s.active.contains_key(model),
    ensures
        ({
            let b = s.after_begin(model);
            let id = s.next_download_id;
            let f = b.after_finish(id, model, failure);
            &&& b.is_current(id, model)
            &&& !f.active.contains_key(model)
            &&& (failure is None ==> !f.statuses.contains_key(model))
            &&& (failure matches Some(e) ==> f.statuses[model] == ModelStatusView::Error(e))
        }),
{
}

/// Begins hand out ids in increasing order until the counter saturates.
pub proof fn lemma_ids_increase(s: DownloadsState, model: Seq<char>)
    requires
        !s.active.contains_key(model),
        s.next_download_id < u64::MAX,
    ensures
        s.after_begin(model).next_download_id == s.next_download_id + 1,
        s.after_begin(model).active[model].0 == s.next_download_id,
{
}

} // verus!
