//! The recording phase machine: which recording owns the microphone and
//! what the next capture or transcription event does to it.
use vstd::prelude::*;

use crate::text::{chars_equal, chars_of};

verus! {

/// Where the recording service stands.
#[derive(Debug, Clone, Copy, PartialEq, Eq, Structural)]
pub enum RecordingPhase {
    Idle,
    Arming,
    Recording,
    Processing,
}

impl Default for RecordingPhase {
    fn default() -> (p: Self)
        ensures
            p == RecordingPhase::Idle,
    {
        RecordingPhase::Idle
    }
}

/// The abstract state of a [`RecordingService`]: its phase and, while a
/// recording is under way, that recording's id and shortcut id.
pub struct RecordingState {
    pub phase: RecordingPhase,
    pub active: Option<(u64, Seq<char>)>,
}

impl RecordingState {
    /// A recording is owned exactly when the service is not idle.
    pub open spec fn consistent(self) -> bool {
        (self.phase == RecordingPhase::Idle) == (self.active is None)
    }

    /// Whether the owned recording has this id and shortcut id.
    pub open spec fn matches(self, recording_id: u64, shortcut_id: Seq<char>) -> bool {
        self.active == Some((recording_id, shortcut_id))
    }

    /// The shortcut id of the owned recording, if any.
    pub open spec fn active_shortcut(self) -> Option<Seq<char>> {
        match self.active {
            Some((_, s)) => Some(s),
            None => None,
        }
    }

    /// The id of the owned recording, if any.
    pub open spec fn active_id(self) -> Option<u64> {
        match self.active {
            Some((id, _)) => Some(id),
            None => None,
        }
    }

    /// The state with no recording.
    pub open spec fn idle() -> RecordingState {
        RecordingState { phase: RecordingPhase::Idle, active: None }
    }

    /// A start request: an idle service starts arming for the request,
    /// any other phase ignores it.
    pub open spec fn after_start(self, recording_id: u64, shortcut_id: Seq<char>) -> RecordingState {
        if self.phase == RecordingPhase::Idle {
            RecordingState {
                phase: RecordingPhase::Arming,
                active: Some((recording_id, shortcut_id)),
            }
        } else {
            self
        }
    }

    /// Capture started: the owned arming recording moves to recording.
    pub open spec fn after_capture_started(self, recording_id: u64, shortcut_id: Seq<char>) -> RecordingState {
        if self.matches(recording_id, shortcut_id) && self.phase == RecordingPhase::Arming {
            RecordingState { phase: RecordingPhase::Recording, ..self }
        } else {
            self
        }
    }

    /// Capture failed to start: the owned recording, arming or processing,
    /// is dropped.
    pub open spec fn after_start_failed(self, recording_id: u64, shortcut_id: Seq<char>) -> RecordingState {
        if self.matches(recording_id, shortcut_id) && (self.phase == RecordingPhase::Arming
            || self.phase == RecordingPhase::Processing) {
            RecordingState::idle()
        } else {
            self
        }
    }

    /// The start is canceled before capture: the owned arming recording is dropped.
    pub open spec fn after_cancel_arming(self, recording_id: u64, shortcut_id: Seq<char>) -> RecordingState {
        if self.phase == RecordingPhase::Arming && self.matches(recording_id, shortcut_id) {
            RecordingState::idle()
        } else {
            self
        }
    }

    /// Whether a stop request for this shortcut stops the owned recording.
    pub open spec fn stop_applies(self, shortcut_id: Seq<char>) -> bool {
        (self.phase == RecordingPhase::Arming || self.phase == RecordingPhase::Recording)
            && self.active_shortcut() == Some(shortcut_id)
    }

    /// A stop request: the owned arming or recording capture of this
    /// shortcut moves to processing.
    pub open spec fn after_stop(self, shortcut_id: Seq<char>) -> RecordingState {
        if self.stop_applies(shortcut_id) {
            RecordingState { phase: RecordingPhase::Processing, ..self }
        } else {
            self
        }
    }

    /// Whether a finished transcription belongs to the processing recording.
    pub open spec fn finish_applies(self, recording_id: u64, shortcut_id: Seq<char>) -> bool {
        self.phase == RecordingPhase::Processing && self.matches(recording_id, shortcut_id)
    }

    /// A transcription finished: the processing recording it belongs to is released.
    pub open spec fn after_finish(self, recording_id: u64, shortcut_id: Seq<char>) -> RecordingState {
        if self.finish_applies(recording_id, shortcut_id) {
            RecordingState::idle()
        } else {
            self
        }
    }
}

struct ActiveRecording {
    id: u64,
    shortcut_id: String,
}

/// Tracks the single recording that may be under way at a time.
pub struct RecordingService {
    phase: RecordingPhase,
    active: Option<ActiveRecording>,
}

impl View for RecordingService {
    type V = RecordingState;

    closed spec fn view(&self) -> RecordingState {
        RecordingState {
            phase: self.phase,
            active: match self.active {
                Some(a) => Some((a.id, a.shortcut_id@)),
                None => None,
            },
        }
    }
}

impl RecordingService {
    #[verifier::type_invariant]
    spec fn inv(self) -> bool {
        self@.consistent()
    }

    /// The current phase.
    pub fn phase(&self) -> (p: RecordingPhase)
        ensures
            p == self@.phase,
            self@.consistent(),
    {
        proof {
            use_type_invariant(self);
        }
        self.phase
    }

    /// The shortcut id of the owned recording, if any.
    pub fn active_shortcut_id(&self) -> (r: Option<&str>)
        ensures
            match r {
                Some(s) => self@.active_shortcut() == Some(s@),
                None => self@.active_shortcut() is None,
            },
    {
        match &self.active {
            Some(a) => Some(a.shortcut_id.as_str()),
            None => None,
        }
    }

    /// The id of the owned recording, if any.
    pub fn active_recording_id(&self) -> (r: Option<u64>)
        ensures
            r == self@.active_id(),
    {
        match &self.active {
            Some(a) => Some(a.id),
            None => None,
        }
    }

    /// Whether the owned recording has this id and shortcut id.
    fn matches_active(&self, recording_id: u64, shortcut_id: &str) -> (b: bool)
        ensures
            b == self@.matches(recording_id, shortcut_id@),
    {
        match &self.active {
            Some(a) => {
                if a.id != recording_id {
                    return false;
                }
                let own = chars_of(a.shortcut_id.as_str());
                let other = chars_of(shortcut_id);
                chars_equal(own.as_slice(), other.as_slice())
            },
            None => false,
        }
    }

    /// A start request; returns the phase afterwards.
    pub fn start_recording(&mut self, recording_id: u64, shortcut_id: &str) -> (p: RecordingPhase)
        ensures
            final(self)@ == old(self)@.after_start(recording_id, shortcut_id@),
            p == final(self)@.phase,
            final(self)@.consistent(),
    {
        proof {
            use_type_invariant(&*self);
        }
        match self.phase {
            RecordingPhase::Idle => {
                *self = RecordingService {
                    phase: RecordingPhase::Arming,
                    active: Some(
                        ActiveRecording { id: recording_id, shortcut_id: shortcut_id.to_owned() },
                    ),
                };
                start_recording(shortcut_id);
            },
            _ => {},
        }
        self.phase
    }

    /// Capture started for a recording; returns the phase afterwards.
    pub fn capture_started(&mut self, recording_id: u64, shortcut_id: &str) -> (p: RecordingPhase)
        ensures
            final(self)@ == old(self)@.after_capture_started(recording_id, shortcut_id@),
            p == final(self)@.phase,
            final(self)@.consistent(),
    {
        proof {
            use_type_invariant(&*self);
        }
        if !self.matches_active(recording_id, shortcut_id) {
            return self.phase;
        }
        if self.phase == RecordingPhase::Arming {
            self.phase = RecordingPhase::Recording;
        }
        self.phase
    }

    /// Capture failed to start for a recording; returns the phase afterwards.
    pub fn start_failed(&mut self, recording_id: u64, shortcut_id: &str) -> (p: RecordingPhase)
        ensures
            final(self)@ == old(self)@.after_start_failed(recording_id, shortcut_id@),
            p == final(self)@.phase,
            final(self)@.consistent(),
    {
        proof {
            use_type_invariant(&*self);
        }
        if self.matches_active(recording_id, shortcut_id) && (self.phase == RecordingPhase::Arming
            || self.phase == RecordingPhase::Processing) {
            *self = RecordingService { phase: RecordingPhase::Idle, active: None };
        }
        self.phase
    }

    /// A start is canceled before capture began; returns the phase afterwards.
    pub fn cancel_arming(&mut self, recording_id: u64, shortcut_id: &str) -> (p: RecordingPhase)
        ensures
            final(self)@ == old(self)@.after_cancel_arming(recording_id, shortcut_id@),
            p == final(self)@.phase,
            final(self)@.consistent(),
    {
        proof {
            use_type_invariant(&*self);
        }
        if self.phase == RecordingPhase::Arming && self.matches_active(recording_id, shortcut_id) {
            *self = RecordingService { phase: RecordingPhase::Idle, active: None };
        }
        self.phase
    }

    /// A stop request; returns the phase afterwards and, when the request
    /// stopped the owned recording, that recording's id.
    pub fn stop_recording(&mut self, shortcut_id: &str) -> (r: (RecordingPhase, Option<u64>))
        ensures
            final(self)@ == old(self)@.after_stop(shortcut_id@),
            r.0 == final(self)@.phase,
            r.1 == (if old(self)@.stop_applies(shortcut_id@) {
                old(self)@.active_id()
            } else {
                None::<u64>
            }),
            final(self)@.consistent(),
    {
        proof {
            use_type_invariant(&*self);
        }
        match self.phase {
            RecordingPhase::Arming | RecordingPhase::Recording => {
                let same = match &self.active {
                    Some(a) => {
                        let own = chars_of(a.shortcut_id.as_str());
                        let other = chars_of(shortcut_id);
                        chars_equal(own.as_slice(), other.as_slice())
                    },
                    None => false,
                };
                if same {
                    let recording_id = match &self.active {
                        Some(a) => Some(a.id),
                        None => None,
                    };
                    stop_recording(shortcut_id);
                    self.phase = RecordingPhase::Processing;
                    (self.phase, recording_id)
                } else {
                    (self.phase, None)
                }
            },
            _ => (self.phase, None),
        }
    }

    /// Whether this recording is the one being processed.
    pub fn is_processing(&self, recording_id: u64, shortcut_id: &str) -> (b: bool)
        ensures
            b == self@.finish_applies(recording_id, shortcut_id@),
    {
        self.phase == RecordingPhase::Processing && self.matches_active(recording_id, shortcut_id)
    }

    /// A transcription finished for a recording, successfully or not.
    /// Returns the phase afterwards and whether the result was accepted.
    pub fn finish_processing<T>(
        &mut self,
        recording_id: u64,
        shortcut_id: &str,
        result: &Result<T, String>,
    ) -> (r: (RecordingPhase, bool))
        ensures
            final(self)@ == old(self)@.after_finish(recording_id, shortcut_id@),
            r.0 == final(self)@.phase,
            r.1 == old(self)@.finish_applies(recording_id, shortcut_id@),
            final(self)@.consistent(),
    {
        proof {
            use_type_invariant(&*self);
        }
        if self.phase != RecordingPhase::Processing {
            return (self.phase, false);
        }
        if !self.matches_active(recording_id, shortcut_id) {
            return (self.phase, false);
        }
        *self = RecordingService { phase: RecordingPhase::Idle, active: None };
        (self.phase, true)
    }
}

impl Default for RecordingService {
    fn default() -> (s: Self)
        ensures
            s@ == RecordingState::idle(),
    {
        RecordingService { phase: RecordingPhase::Idle, active: None }
    }
}

/// Marks the start of a recording for a shortcut; it records nothing
/// itself and leaves all state to [`RecordingService`].
pub fn start_recording(shortcut_id: &str) {
}

/// Marks the stop of a recording for a shortcut; it records nothing
/// itself and leaves all state to [`RecordingService`].
pub fn stop_recording(shortcut_id: &str) {
}

/// Every transition keeps a consistent state consistent.
pub proof fn lemma_transitions_keep_consistency(s: RecordingState, recording_id: u64, shortcut_id: Seq<char>)
    requires
        s.consistent(),
    ensures
        s.after_start(recording_id, shortcut_id).consistent(),
        s.after_capture_started(recording_id, shortcut_id).consistent(),
        s.after_start_failed(recording_id, shortcut_id).consistent(),
        s.after_cancel_arming(recording_id, shortcut_id).consistent(),
        s.after_stop(shortcut_id).consistent(),
        s.after_finish(recording_id, shortcut_id).consistent(),
{
}

/// Canceling the start that an idle service just accepted returns it to idle.
pub proof fn lemma_cancel_undoes_start(s: RecordingState, recording_id: u64, shortcut_id: Seq<char>)
    requires
        s.consistent(),
        s.phase == RecordingPhase::Idle,
    ensures
        s.after_start(recording_id, shortcut_id).after_cancel_arming(recording_id, shortcut_id)
            == s,
{
}

/// From idle, start, capture started, stop and finish of the same
/// recording pass through arming, recording and processing and end idle,
/// with the result accepted.
pub proof fn lemma_full_cycle(s: RecordingState, recording_id: u64, shortcut_id: Seq<char>)
    requires
        s.consistent(),
        s.phase == RecordingPhase::Idle,
    ensures
        ({
            let a = s.after_start(recording_id, shortcut_id);
            let b = a.after_capture_started(recording_id, shortcut_id);
            let c = b.after_stop(shortcut_id);
            &&& a.phase == RecordingPhase::Arming
            &&& b.phase == RecordingPhase::Recording
            &&& b.stop_applies(shortcut_id)
            &&& c.phase == RecordingPhase::Processing
            &&& c.finish_applies(recording_id, shortcut_id)
            &&& c.after_finish(recording_id, shortcut_id) == s
        }),
{
}

/// While a recording is owned, a start request for any recording changes
/// nothing: at most one recording is under way at a time.
pub proof fn lemma_start_ignored_while_busy(s: RecordingState, recording_id: u64, shortcut_id: Seq<char>)
    requires
        s.phase != RecordingPhase::Idle,
    ensures
        s.after_start(recording_id, shortcut_id) == s,
{
}

/// A transcription result that does not belong to the processing
/// recording (another id or another shortcut) changes nothing.
pub proof fn lemma_stale_finish_rejected(s: RecordingState, recording_id: u64, shortcut_id: Seq<char>)
    requires
        !s.matches(recording_id, shortcut_id),
    ensures
        !s.finish_applies(recording_id, shortcut_id),
        s.after_finish(recording_id, shortcut_id) == s,
{
}

/// A stop request for a shortcut other than the owned one changes nothing.
pub proof fn lemma_stop_other_shortcut_ignored(s: RecordingState, shortcut_id: Seq<char>)
    requires
        s.active_shortcut() != Some(shortcut_id),
    ensures
        s.after_stop(shortcut_id) == s,
{
}

} // verus!
