//! The cancellation flag shared between a download worker and the app.
use std::sync::atomic::AtomicBool;
use std::sync::atomic::Ordering;
use std::sync::Arc;
use vstd::prelude::*;

verus! {

/// A handle that asks a running download to stop.
#[derive(Debug)]
pub struct DownloadHandle {
    cancel_requested: Arc<AtomicBool>,
}

/// `Arc::clone`: another pointer to the same flag, equal to the first.
#[verifier::external_body]
fn share_flag(flag: &Arc<AtomicBool>) -> (r: Arc<AtomicBool>)
    ensures
        r == *flag,
{
    Arc::clone(flag)
}

impl Clone for DownloadHandle {
    /// Another handle on the same flag: raising either is seen through both.
    fn clone(&self) -> (h: Self)
        ensures
            h == *self,
    {
        DownloadHandle { cancel_requested: share_flag(&self.cancel_requested) }
    }
}

impl DownloadHandle {
    /// A handle whose flag is not yet raised.
    pub fn new_for_test() -> (h: Self) {
        DownloadHandle { cancel_requested: Arc::new(AtomicBool::new(false)) }
    }

    /// Raises the cancellation flag that the download worker polls.
    pub fn cancel(&self) {
        self.cancel_requested.store(true, Ordering::Relaxed);
    }

    /// Whether cancellation was requested.
    pub fn is_canceled(&self) -> bool {
        self.cancel_requested.load(Ordering::Relaxed)
    }
}

/// Why a download step stopped.
#[derive(Debug, Clone, PartialEq, Eq)]
pub enum DownloadError {
    /// The app asked the download to stop.
    Canceled,
    /// The step failed, with the message the app shows.
    Failed(String),
}

/// `Err(Canceled)` exactly when the flag is raised.
pub fn cancel_check(canceled: bool) -> (r: Result<(), DownloadError>)
    ensures
        r == (if canceled {
            Err::<(), DownloadError>(DownloadError::Canceled)
        } else {
            Ok(())
        }),
{
    if canceled {
        Err(DownloadError::Canceled)
    } else {
        Ok(())
    }
}

/// Checks the handle's flag between download steps: `Ok` to go on, or
/// `Err(Canceled)`; the flag may be raised by another thread at any time.
pub fn ensure_not_canceled(handle: &DownloadHandle) -> (r: Result<(), DownloadError>)
    ensures
        r matches Ok(()) || r matches Err(DownloadError::Canceled),
{
    cancel_check(handle.is_canceled())
}

} // verus!
