//! The app's coordinator as a state machine: what each command does to the
//! recording, the pending start cue, the pending output delivery and the
//! stop cues, and which outside work it asks for. The app performs that
//! work (audio, beeps, output, tray) and reports back with further calls.
use vstd::prelude::*;

use crate::clipboard::OutputCompletion;
use crate::clipboard::OutputDelivery;
use crate::recording::{RecordingPhase, RecordingService, RecordingState};
use crate::config::{resolve_shortcut_selector, selector_resolution, AppConfig};
use crate::text::{chars_equal, chars_of, push_str, string_from_chars};
use crate::trigger::{ExternalTriggerAction, ExternalTriggerRequest, ExternalTriggerResponse};

verus! {

broadcast use vstd::string::group_string_axioms;

/// Whether two strings are equal.
pub fn same_str(a: &str, b: &str) -> (r: bool)
    ensures
        r == (a@ == b@),
{
    let x = chars_of(a);
    let y = chars_of(b);
    chars_equal(x.as_slice(), y.as_slice())
}

/// The name of a phase as `Debug` writes it.
pub open spec fn phase_name(p: RecordingPhase) -> Seq<char> {
    match p {
        RecordingPhase::Idle => "Idle"@,
        RecordingPhase::Arming => "Arming"@,
        RecordingPhase::Recording => "Recording"@,
        RecordingPhase::Processing => "Processing"@,
    }
}

fn phase_text(p: RecordingPhase) -> (s: &'static str)
    ensures
        s@ == phase_name(p),
{
    match p {
        RecordingPhase::Idle => "Idle",
        RecordingPhase::Arming => "Arming",
        RecordingPhase::Recording => "Recording",
        RecordingPhase::Processing => "Processing",
    }
}

/// The output a finished recording still waits for.
#[derive(Debug, Clone, PartialEq, Eq)]
pub struct PendingOutputDelivery {
    pub recording_id: u64,
    pub shortcut_id: String,
    pub completion: OutputCompletion,
}

impl PendingOutputDelivery {
    /// Whether this is the output of that recording, waiting for that
    /// completion.
    pub fn matches(&self, recording_id: u64, shortcut_id: &str, completion: OutputCompletion) -> (b: bool)
        ensures
            b == (self.recording_id == recording_id && self.shortcut_id@ == shortcut_id@
                && self.completion == completion),
    {
        self.recording_id == recording_id && same_str(self.shortcut_id.as_str(), shortcut_id)
            && self.completion == completion
    }

    /// Whether this is the output of that recording.
    pub fn matches_recording(&self, recording_id: u64, shortcut_id: &str) -> (b: bool)
        ensures
            b == (self.recording_id == recording_id && self.shortcut_id@ == shortcut_id@),
    {
        self.recording_id == recording_id && same_str(self.shortcut_id.as_str(), shortcut_id)
    }
}

/// A recording whose capture waits for its start cue to finish; `plan` is
/// what the capture is started with.
pub struct PendingRecordingStart<P> {
    pub recording_id: u64,
    pub shortcut_id: String,
    pub plan: P,
}

/// What a toggle request does.
#[derive(Debug, Clone, PartialEq, Eq)]
pub enum ToggleDecision {
    /// Start a recording for the shortcut.
    Start,
    /// Stop the shortcut's recording.
    Stop,
    /// Nothing; the message says why.
    Rejected(String),
}

/// What a stop request did.
#[derive(Debug, Clone, PartialEq, Eq)]
pub enum StopDecision {
    /// The start was still waiting for its cue and was dropped.
    CanceledArming,
    /// The capture of this recording is to be stopped.
    StopCapture(u64),
    /// No recording of the shortcut was under way; the message says so.
    NoActiveRecording(String),
}

/// What a change of the shown phase asks of the tray.
#[derive(Debug, Clone, Copy, PartialEq, Eq, Structural)]
pub struct PhaseUpdate {
    /// The tray shows a new phase.
    pub changed: bool,
    /// Processing just ended: refresh the tray again a little later.
    pub schedule_idle_reconcile: bool,
}

/// The message of a toggle for a shortcut while another one records.
pub open spec fn toggle_busy_message(shortcut_id: Seq<char>, active: Seq<char>) -> Seq<char> {
    "toggle ignored for shortcut '"@ + shortcut_id + "' because shortcut '"@ + active
        + "' is recording"@
}

/// The message of a start request while the recorder is busy.
pub open spec fn start_busy_message(shortcut_id: Seq<char>, phase: RecordingPhase) -> Seq<char> {
    "cannot start recording for shortcut '"@ + shortcut_id + "': recorder is "@ + phase_name(
        phase,
    )
}

/// The message of a stop request without a recording.
pub open spec fn no_recording_message(shortcut_id: Seq<char>) -> Seq<char> {
    "no active recording to stop for shortcut '"@ + shortcut_id + "'"@
}

/// The next recording id after `id`: one more, wrapping to 1.
pub open spec fn next_id(id: u64) -> u64 {
    if id == u64::MAX {
        1
    } else {
        (id + 1) as u64
    }
}

/// The stop cues as a set of (recording id, shortcut id).
pub open spec fn cue_set(v: Seq<(u64, String)>) -> Set<(u64, Seq<char>)> {
    Set::new(|c: (u64, Seq<char>)| exists|i: int| 0 <= i < v.len() && v[i].0 == c.0 && v[i].1@ == c.1)
}

/// The coordinator's state.
pub struct RuntimeCore<P> {
    pub recording: RecordingService,
    pub recording_phase: RecordingPhase,
    pub pending_recording_start: Option<PendingRecordingStart<P>>,
    pub pending_stop_cues: Vec<(u64, String)>,
    pub pending_output: Option<PendingOutputDelivery>,
    pub next_recording_id: u64,
    pub is_quitting: bool,
}

impl<P> RuntimeCore<P> {
    /// The coordinator at start-up: idle, nothing pending, ids from 1.
    pub fn new() -> (c: Self)
        ensures
            c.recording@ == RecordingState::idle(),
            c.recording_phase == RecordingPhase::Idle,
            c.pending_recording_start is None,
            c.pending_stop_cues@.len() == 0,
            c.pending_output is None,
            c.next_recording_id == 1,
            !c.is_quitting,
    {
        RuntimeCore {
            recording: RecordingService::default(),
            recording_phase: RecordingPhase::Idle,
            pending_recording_start: None,
            pending_stop_cues: Vec::new(),
            pending_output: None,
            next_recording_id: 1,
            is_quitting: false,
        }
    }

    /// Whether a command is handled: while quitting only the shutdown
    /// commands are.
    pub fn accepts_command(&self, is_shutdown_or_quit: bool) -> (b: bool)
        ensures
            b == (!self.is_quitting || is_shutdown_or_quit),
    {
        !self.is_quitting || is_shutdown_or_quit
    }

    /// Starts quitting; returns whether a quit was already under way.
    pub fn begin_quit(&mut self) -> (was_quitting: bool)
        ensures
            was_quitting == old(self).is_quitting,
            final(self).is_quitting,
            final(self).recording@ == old(self).recording@,
            final(self).next_recording_id == old(self).next_recording_id,
            final(self).recording_phase == old(self).recording_phase,
            final(self).pending_recording_start == old(self).pending_recording_start,
            final(self).pending_stop_cues == old(self).pending_stop_cues,
            final(self).pending_output == old(self).pending_output,
    {
        let was = self.is_quitting;
        self.is_quitting = true;
        was
    }

    /// Hands out the next recording id.
    pub fn allocate_recording_id(&mut self) -> (id: u64)
        ensures
            id == old(self).next_recording_id,
            final(self).next_recording_id == next_id(old(self).next_recording_id),
            final(self).recording@ == old(self).recording@,
            final(self).recording_phase == old(self).recording_phase,
            final(self).pending_output == old(self).pending_output,
            final(self).is_quitting == old(self).is_quitting,
            final(self).pending_recording_start == old(self).pending_recording_start,
            final(self).pending_stop_cues == old(self).pending_stop_cues,
    {
        let id = self.next_recording_id;
        self.next_recording_id = match id.checked_add(1) {
            Some(n) => n,
            None => 1,
        };
        id
    }

    /// Shows `phase`; a change from processing to idle asks for a later
    /// refresh of the tray.
    pub fn set_recording_phase(&mut self, phase: RecordingPhase) -> (u: PhaseUpdate)
        ensures
            final(self).recording_phase == phase,
            u.changed == (old(self).recording_phase != phase),
            u.schedule_idle_reconcile == (old(self).recording_phase == RecordingPhase::Processing
                && phase == RecordingPhase::Idle),
            final(self).recording@ == old(self).recording@,
            final(self).pending_output == old(self).pending_output,
            final(self).pending_recording_start == old(self).pending_recording_start,
            final(self).pending_stop_cues == old(self).pending_stop_cues,
            final(self).next_recording_id == old(self).next_recording_id,
            final(self).is_quitting == old(self).is_quitting,
    {
        let previous = self.recording_phase;
        if previous == phase {
            return PhaseUpdate { changed: false, schedule_idle_reconcile: false };
        }
        self.recording_phase = phase;
        PhaseUpdate {
            changed: true,
            schedule_idle_reconcile: previous == RecordingPhase::Processing && phase
                == RecordingPhase::Idle,
        }
    }

    /// What a toggle for `shortcut_id` does: start when idle, stop when the
    /// shortcut's own recording is arming or recording, else nothing.
    pub fn toggle_decision(&self, shortcut_id: &str) -> (d: ToggleDecision)
        ensures
            ({
                let s = self.recording@;
                match s.phase {
                    RecordingPhase::Idle => d == ToggleDecision::Start,
                    RecordingPhase::Arming | RecordingPhase::Recording => if s.active_shortcut()
                        == Some(shortcut_id@) {
                        d == ToggleDecision::Stop
                    } else {
                        d matches ToggleDecision::Rejected(m) && m@ == toggle_busy_message(
                            shortcut_id@,
                            match s.active_shortcut() {
                                Some(a) => a,
                                None => "unknown"@,
                            },
                        )
                    },
                    RecordingPhase::Processing => d matches ToggleDecision::Rejected(m) && m@
                        == "toggle ignored while a recording is being processed"@,
                }
            }),
    {
        let phase = self.recording.phase();
        match phase {
            RecordingPhase::Idle => ToggleDecision::Start,
            RecordingPhase::Arming | RecordingPhase::Recording => {
                let active = self.recording.active_shortcut_id();
                let same = match active {
                    Some(a) => same_str(a, shortcut_id),
                    None => false,
                };
                if same {
                    ToggleDecision::Stop
                } else {
                    let mut out: Vec<char> = Vec::new();
                    push_str(&mut out, "toggle ignored for shortcut '");
                    push_str(&mut out, shortcut_id);
                    push_str(&mut out, "' because shortcut '");
                    match active {
                        Some(a) => push_str(&mut out, a),
                        None => push_str(&mut out, "unknown"),
                    }
                    push_str(&mut out, "' is recording");
                    ToggleDecision::Rejected(string_from_chars(out.as_slice()))
                }
            },
            RecordingPhase::Processing => {
                ToggleDecision::Rejected(
                    string_from_chars(
                        chars_of("toggle ignored while a recording is being processed").as_slice(),
                    ),
                )
            },
        }
    }

    /// The first step of a start request: refused while the recorder is
    /// busy, else the new recording's id. The plan is built by the caller
    /// with that id.
    pub fn begin_start(&mut self, shortcut_id: &str) -> (r: Result<u64, String>)
        ensures
            final(self).recording@ == old(self).recording@,
            final(self).pending_output == old(self).pending_output,
            final(self).is_quitting == old(self).is_quitting,
            old(self).recording@.phase == RecordingPhase::Idle ==> r == Ok::<u64, String>(
                old(self).next_recording_id,
            ) && final(self).next_recording_id == next_id(old(self).next_recording_id)
                && final(self).recording_phase == old(self).recording_phase,
            old(self).recording@.phase != RecordingPhase::Idle ==> (r matches Err(m) && m@
                == start_busy_message(shortcut_id@, old(self).recording@.phase))
                && final(self).recording_phase == old(self).recording@.phase
                && final(self).next_recording_id == old(self).next_recording_id,
            final(self).pending_recording_start == old(self).pending_recording_start,
            final(self).pending_stop_cues == old(self).pending_stop_cues,
    {
        let phase = self.recording.phase();
        if phase != RecordingPhase::Idle {
            let p = self.recording.start_recording(0, shortcut_id);
            self.set_recording_phase(p);
            let mut out: Vec<char> = Vec::new();
            push_str(&mut out, "cannot start recording for shortcut '");
            push_str(&mut out, shortcut_id);
            push_str(&mut out, "': recorder is ");
            push_str(&mut out, phase_text(p));
            return Err(string_from_chars(out.as_slice()));
        }
        Ok(self.allocate_recording_id())
    }

    /// The plan of a start request is ready: the recorder starts arming.
    pub fn start_planned(&mut self, recording_id: u64, shortcut_id: &str) -> (p: RecordingPhase)
        ensures
            final(self).recording@ == old(self).recording@.after_start(recording_id, shortcut_id@),
            p == final(self).recording@.phase,
            final(self).recording_phase == p,
            final(self).pending_output == old(self).pending_output,
            final(self).next_recording_id == old(self).next_recording_id,
            final(self).is_quitting == old(self).is_quitting,
            final(self).pending_recording_start == old(self).pending_recording_start,
            final(self).pending_stop_cues == old(self).pending_stop_cues,
    {
        let p = self.recording.start_recording(recording_id, shortcut_id);
        self.set_recording_phase(p);
        p
    }

    /// Holds the start until its cue finished.
    pub fn queue_start_cue(&mut self, recording_id: u64, shortcut_id: String, plan: P)
        ensures
            final(self).pending_recording_start matches Some(s) && s.recording_id == recording_id
                && s.shortcut_id@ == shortcut_id@ && s.plan == plan,
            final(self).recording@ == old(self).recording@,
            final(self).recording_phase == old(self).recording_phase,
            final(self).pending_output == old(self).pending_output,
            final(self).pending_stop_cues == old(self).pending_stop_cues,
            final(self).next_recording_id == old(self).next_recording_id,
            final(self).is_quitting == old(self).is_quitting,
    {
        self.pending_recording_start = Some(
            PendingRecordingStart { recording_id, shortcut_id, plan },
        );
    }

    /// The start cue could not be queued: the held plan, to start the
    /// capture at once.
    pub fn take_pending_start(&mut self) -> (r: Option<P>)
        ensures
            final(self).pending_recording_start is None,
            r == (match old(self).pending_recording_start {
                Some(s) => Some(s.plan),
                None => None,
            }),
            final(self).recording@ == old(self).recording@,
            final(self).recording_phase == old(self).recording_phase,
            final(self).pending_output == old(self).pending_output,
            final(self).pending_stop_cues == old(self).pending_stop_cues,
            final(self).next_recording_id == old(self).next_recording_id,
            final(self).is_quitting == old(self).is_quitting,
    {
        match self.pending_recording_start.take() {
            Some(s) => Some(s.plan),
            None => None,
        }
    }

    /// A start cue finished: the held plan when the cue belongs to the held
    /// start, which is then released; a stale cue leaves it held.
    pub fn start_cue_finished(&mut self, recording_id: u64, shortcut_id: &str) -> (r: Option<P>)
        ensures
            match old(self).pending_recording_start {
                Some(s) => if s.recording_id == recording_id && s.shortcut_id@ == shortcut_id@ {
                    r == Some(s.plan) && final(self).pending_recording_start is None
                } else {
                    r is None && final(self).pending_recording_start == old(
                        self,
                    ).pending_recording_start
                },
                None => r is None && final(self).pending_recording_start is None,
            },
            final(self).recording@ == old(self).recording@,
            final(self).recording_phase == old(self).recording_phase,
            final(self).pending_output == old(self).pending_output,
            final(self).pending_stop_cues == old(self).pending_stop_cues,
            final(self).next_recording_id == old(self).next_recording_id,
            final(self).is_quitting == old(self).is_quitting,
    {
        let pending = self.pending_recording_start.take();
        match pending {
            None => None,
            Some(s) => {
                if s.recording_id != recording_id || !same_str(s.shortcut_id.as_str(), shortcut_id) {
                    self.pending_recording_start = Some(s);
                    None
                } else {
                    Some(s.plan)
                }
            },
        }
    }

    /// The capture of a recording failed to start: it is dropped.
    pub fn capture_start_failed(&mut self, recording_id: u64, shortcut_id: &str) -> (p: RecordingPhase)
        ensures
            final(self).recording@ == old(self).recording@.after_start_failed(
                recording_id,
                shortcut_id@,
            ),
            p == final(self).recording@.phase,
            final(self).recording_phase == p,
            final(self).pending_output == old(self).pending_output,
            final(self).pending_recording_start == old(self).pending_recording_start,
            final(self).pending_stop_cues == old(self).pending_stop_cues,
            final(self).next_recording_id == old(self).next_recording_id,
            final(self).is_quitting == old(self).is_quitting,
    {
        let p = self.recording.start_failed(recording_id, shortcut_id);
        self.set_recording_phase(p);
        p
    }

    /// The capture of a recording started.
    pub fn capture_started(&mut self, recording_id: u64, shortcut_id: &str) -> (p: RecordingPhase)
        ensures
            final(self).recording@ == old(self).recording@.after_capture_started(
                recording_id,
                shortcut_id@,
            ),
            p == final(self).recording@.phase,
            final(self).recording_phase == p,
            final(self).pending_output == old(self).pending_output,
            final(self).pending_recording_start == old(self).pending_recording_start,
            final(self).pending_stop_cues == old(self).pending_stop_cues,
            final(self).next_recording_id == old(self).next_recording_id,
            final(self).is_quitting == old(self).is_quitting,
    {
        let p = self.recording.capture_started(recording_id, shortcut_id);
        self.set_recording_phase(p);
        p
    }

    /// A stop request: a start still waiting for its cue is dropped; else
    /// the shortcut's arming or recording capture moves to processing and
    /// its capture is to be stopped; else there is nothing to stop.
    pub fn stop_request(&mut self, shortcut_id: &str) -> (d: StopDecision)
        ensures
            match old(self).pending_recording_start {
                Some(s) if s.shortcut_id@ == shortcut_id@ => {
                    &&& d == StopDecision::CanceledArming
                    &&& final(self).pending_recording_start is None
                    &&& final(self).recording@ == old(self).recording@.after_cancel_arming(
                        s.recording_id,
                        shortcut_id@,
                    )
                    &&& final(self).recording_phase == final(self).recording@.phase
                },
                _ => {
                    &&& final(self).pending_recording_start == old(self).pending_recording_start
                    &&& final(self).recording@ == old(self).recording@.after_stop(shortcut_id@)
                    &&& final(self).recording_phase == final(self).recording@.phase
                    &&& if old(self).recording@.stop_applies(shortcut_id@) {
                        old(self).recording@.active_id() matches Some(id) && d
                            == StopDecision::StopCapture(id)
                    } else {
                        d matches StopDecision::NoActiveRecording(m) && m@ == no_recording_message(
                            shortcut_id@,
                        )
                    }
                },
            },
            final(self).pending_output == old(self).pending_output,
            final(self).next_recording_id == old(self).next_recording_id,
            final(self).pending_stop_cues == old(self).pending_stop_cues,
            final(self).is_quitting == old(self).is_quitting,
    {
        let cancel_id: Option<u64> = match &self.pending_recording_start {
            Some(s) => {
                if same_str(s.shortcut_id.as_str(), shortcut_id) {
                    Some(s.recording_id)
                } else {
                    None
                }
            },
            None => None,
        };
        if let Some(recording_id) = cancel_id {
            self.pending_recording_start = None;
            let p = self.recording.cancel_arming(recording_id, shortcut_id);
            self.set_recording_phase(p);
            return StopDecision::CanceledArming;
        }
        let (p, recording_id) = self.recording.stop_recording(shortcut_id);
        self.set_recording_phase(p);
        match recording_id {
            Some(id) => StopDecision::StopCapture(id),
            None => {
                let mut out: Vec<char> = Vec::new();
                push_str(&mut out, "no active recording to stop for shortcut '");
                push_str(&mut out, shortcut_id);
                push_str(&mut out, "'");
                StopDecision::NoActiveRecording(string_from_chars(out.as_slice()))
            },
        }
    }

    /// Whether the duration limit still concerns this recording: it is
    /// the owned one and still arming or recording.
    pub fn recording_duration_limit_applies(&self, recording_id: u64, shortcut_id: &str) -> (b: bool)
        ensures
            b == (self.recording@.active_id() == Some(recording_id)
                && self.recording@.active_shortcut() == Some(shortcut_id@) && (
            self.recording@.phase == RecordingPhase::Arming || self.recording@.phase
                == RecordingPhase::Recording)),
    {
        recording_duration_limit_applies(&self.recording, recording_id, shortcut_id)
    }

    /// Whether a capture or transcription result belongs to the recording
    /// being processed.
    pub fn result_applies(&self, recording_id: u64, shortcut_id: &str) -> (b: bool)
        ensures
            b == self.recording@.finish_applies(recording_id, shortcut_id@),
    {
        self.recording.is_processing(recording_id, shortcut_id)
    }

    /// Processing of a recording ended: the recorder is released if the
    /// recording is the processing one. Returns whether it was.
    pub fn finish_processing_now(&mut self, recording_id: u64, shortcut_id: &str, succeeded: bool) -> (accepted: bool)
        ensures
            accepted == old(self).recording@.finish_applies(recording_id, shortcut_id@),
            final(self).recording@ == old(self).recording@.after_finish(
                recording_id,
                shortcut_id@,
            ),
            final(self).recording_phase == final(self).recording@.phase,
            final(self).pending_output == old(self).pending_output,
            final(self).pending_recording_start == old(self).pending_recording_start,
            final(self).pending_stop_cues == old(self).pending_stop_cues,
            final(self).next_recording_id == old(self).next_recording_id,
            final(self).is_quitting == old(self).is_quitting,
    {
        let outcome: Result<(), String> = if succeeded {
            Ok(())
        } else {
            Err(String::new())
        };
        let (p, accepted) = self.recording.finish_processing(recording_id, shortcut_id, &outcome);
        self.set_recording_phase(p);
        accepted
    }

    /// The transcription output was handed on: a queued delivery is waited
    /// for, else the recording is finished now.
    pub fn transcription_output_applied(&mut self, recording_id: u64, shortcut_id: &str, delivery: OutputDelivery)
        ensures
            match delivery {
                OutputDelivery::Queued(c) => final(self).pending_output matches Some(p)
                    && p.recording_id == recording_id && p.shortcut_id@ == shortcut_id@
                    && p.completion == c && final(self).recording@ == old(self).recording@,
                OutputDelivery::NotQueued => final(self).recording@ == old(
                    self,
                ).recording@.after_finish(recording_id, shortcut_id@) && final(self).pending_output
                    == old(self).pending_output,
            },
            final(self).pending_recording_start == old(self).pending_recording_start,
            final(self).pending_stop_cues == old(self).pending_stop_cues,
            final(self).next_recording_id == old(self).next_recording_id,
            final(self).is_quitting == old(self).is_quitting,
            match delivery {
                OutputDelivery::Queued(_) => final(self).recording_phase == old(self).recording_phase,
                OutputDelivery::NotQueued => final(self).recording_phase == final(self).recording@.phase,
            },
    {
        match delivery {
            OutputDelivery::Queued(completion) => {
                self.set_pending_output(recording_id, shortcut_id, completion);
            },
            OutputDelivery::NotQueued => {
                self.finish_processing_now(recording_id, shortcut_id, true);
            },
        }
    }

    /// Waits for `completion` to finish the recording's output.
    pub fn set_pending_output(&mut self, recording_id: u64, shortcut_id: &str, completion: OutputCompletion)
        ensures
            final(self).pending_output matches Some(p) && p.recording_id == recording_id
                && p.shortcut_id@ == shortcut_id@ && p.completion == completion,
            final(self).recording@ == old(self).recording@,
            final(self).recording_phase == old(self).recording_phase,
            final(self).pending_stop_cues == old(self).pending_stop_cues,
            final(self).next_recording_id == old(self).next_recording_id,
            final(self).is_quitting == old(self).is_quitting,
            final(self).pending_recording_start == old(self).pending_recording_start,
    {
        self.pending_output = Some(
            PendingOutputDelivery {
                recording_id,
                shortcut_id: shortcut_id.to_string(),
                completion,
            },
        );
    }

    /// Changes what the recording's pending output waits for; output of
    /// another recording is left as it is.
    pub fn update_pending_output_completion(&mut self, recording_id: u64, shortcut_id: &str, completion: OutputCompletion)
        ensures
            match old(self).pending_output {
                Some(p) if p.recording_id == recording_id && p.shortcut_id@ == shortcut_id@ =>
                    final(self).pending_output matches Some(q) && q.recording_id == recording_id
                    && q.shortcut_id@ == shortcut_id@ && q.completion == completion,
                _ => final(self).pending_output == old(self).pending_output,
            },
            final(self).recording@ == old(self).recording@,
            final(self).recording_phase == old(self).recording_phase,
            final(self).pending_stop_cues == old(self).pending_stop_cues,
            final(self).next_recording_id == old(self).next_recording_id,
            final(self).is_quitting == old(self).is_quitting,
            final(self).pending_recording_start == old(self).pending_recording_start,
    {
        let matches = match &self.pending_output {
            Some(p) => p.matches_recording(recording_id, shortcut_id),
            None => false,
        };
        if matches {
            self.set_pending_output(recording_id, shortcut_id, completion);
        }
    }

    /// The recording's pending output finished: it is dropped and the
    /// recording finished. Output of another recording, or none, changes
    /// nothing. Returns whether it finished.
    pub fn finish_pending_output(&mut self, recording_id: u64, shortcut_id: &str) -> (b: bool)
        ensures
            b == (old(self).pending_output matches Some(p) && p.recording_id == recording_id
                && p.shortcut_id@ == shortcut_id@),
            b ==> final(self).pending_output is None && final(self).recording@ == old(
                self,
            ).recording@.after_finish(recording_id, shortcut_id@),
            !b ==> final(self).pending_output == old(self).pending_output && final(self).recording@
                == old(self).recording@,
            final(self).pending_recording_start == old(self).pending_recording_start,
            final(self).pending_stop_cues == old(self).pending_stop_cues,
            final(self).next_recording_id == old(self).next_recording_id,
            final(self).is_quitting == old(self).is_quitting,
            b ==> final(self).recording_phase == final(self).recording@.phase,
            !b ==> *final(self) == *old(self),
    {
        let matches = match &self.pending_output {
            Some(p) => p.matches_recording(recording_id, shortcut_id),
            None => false,
        };
        if !matches {
            return false;
        }
        self.pending_output = None;
        self.finish_processing_now(recording_id, shortcut_id, true);
        true
    }

    /// Whether an output script's result for `recording_id` and
    /// `shortcut_id` belongs to the pending output.
    pub open spec fn script_result_applies_spec(&self, recording_id: u64, shortcut_id: Seq<char>) -> bool {
        self.pending_output matches Some(p) && p.recording_id == recording_id && p.shortcut_id@
            == shortcut_id && p.completion == OutputCompletion::Script
    }

    /// Whether an output script's result belongs to the pending output.
    pub fn script_result_applies(&self, recording_id: u64, shortcut_id: &str) -> (b: bool)
        ensures
            b == self.script_result_applies_spec(recording_id, shortcut_id@),
    {
        match &self.pending_output {
            Some(p) => p.matches(recording_id, shortcut_id, OutputCompletion::Script),
            None => false,
        }
    }

    /// An output script finished. A result that does not belong to the
    /// pending script output is stale and changes nothing. Otherwise
    /// `delivery` is how its text went on to the clipboard, or none where it
    /// failed, gave no text or no output worker runs: a queued delivery is
    /// waited for, and otherwise the output is finished.
    pub fn output_script_finished(&mut self, recording_id: u64, shortcut_id: &str, delivery: Option<OutputDelivery>)
        ensures
            !old(self).script_result_applies_spec(recording_id, shortcut_id@) ==> *final(self)
                == *old(self),
            old(self).script_result_applies_spec(recording_id, shortcut_id@) ==> match delivery {
                Some(OutputDelivery::Queued(c)) => final(self).pending_output matches Some(q)
                    && q.recording_id == recording_id && q.shortcut_id@ == shortcut_id@
                    && q.completion == c && final(self).recording@ == old(self).recording@,
                _ => final(self).pending_output is None && final(self).recording@ == old(
                    self,
                ).recording@.after_finish(recording_id, shortcut_id@),
            },
            final(self).pending_recording_start == old(self).pending_recording_start,
            final(self).pending_stop_cues == old(self).pending_stop_cues,
            final(self).next_recording_id == old(self).next_recording_id,
            final(self).is_quitting == old(self).is_quitting,
            old(self).script_result_applies_spec(recording_id, shortcut_id@) ==> match delivery {
                Some(OutputDelivery::Queued(_)) => final(self).recording_phase == old(
                    self,
                ).recording_phase,
                _ => final(self).recording_phase == final(self).recording@.phase,
            },
    {
        if !self.script_result_applies(recording_id, shortcut_id) {
            return;
        }
        match delivery {
            Some(OutputDelivery::Queued(completion)) => {
                self.update_pending_output_completion(recording_id, shortcut_id, completion);
            },
            _ => {
                self.finish_pending_output(recording_id, shortcut_id);
            },
        }
    }

    /// A clipboard copy finished: it finishes a pending copy of that
    /// recording, and a pending paste where the copy failed.
    pub fn clipboard_copy_finished(&mut self, recording_id: u64, shortcut_id: &str, copy_failed: bool) -> (finished: bool)
        ensures
            finished == (old(self).pending_output matches Some(p) && p.recording_id
                == recording_id && p.shortcut_id@ == shortcut_id@ && (p.completion
                == OutputCompletion::ClipboardCopy || (p.completion
                == OutputCompletion::ClipboardPaste && copy_failed))),
            finished ==> final(self).pending_output is None && final(self).recording@ == old(
                self,
            ).recording@.after_finish(recording_id, shortcut_id@),
            !finished ==> final(self).pending_output == old(self).pending_output
                && final(self).recording@ == old(self).recording@,
            final(self).pending_recording_start == old(self).pending_recording_start,
            final(self).pending_stop_cues == old(self).pending_stop_cues,
            final(self).next_recording_id == old(self).next_recording_id,
            final(self).is_quitting == old(self).is_quitting,
            finished ==> final(self).recording_phase == final(self).recording@.phase,
            !finished ==> *final(self) == *old(self),
    {
        let completion = match &self.pending_output {
            Some(p) => {
                if p.matches_recording(recording_id, shortcut_id) {
                    Some(p.completion)
                } else {
                    None
                }
            },
            None => None,
        };
        match completion {
            Some(OutputCompletion::ClipboardCopy) => self.finish_pending_output(
                recording_id,
                shortcut_id,
            ),
            Some(OutputCompletion::ClipboardPaste) => {
                if copy_failed {
                    self.finish_pending_output(recording_id, shortcut_id)
                } else {
                    false
                }
            },
            _ => false,
        }
    }

    /// A clipboard paste finished: it finishes a pending paste of that
    /// recording.
    pub fn clipboard_paste_finished(&mut self, recording_id: u64, shortcut_id: &str) -> (finished: bool)
        ensures
            finished == (old(self).pending_output matches Some(p) && p.recording_id
                == recording_id && p.shortcut_id@ == shortcut_id@ && p.completion
                == OutputCompletion::ClipboardPaste),
            finished ==> final(self).pending_output is None && final(self).recording@ == old(
                self,
            ).recording@.after_finish(recording_id, shortcut_id@),
            !finished ==> final(self).pending_output == old(self).pending_output
                && final(self).recording@ == old(self).recording@,
            final(self).pending_recording_start == old(self).pending_recording_start,
            final(self).pending_stop_cues == old(self).pending_stop_cues,
            final(self).next_recording_id == old(self).next_recording_id,
            final(self).is_quitting == old(self).is_quitting,
            finished ==> final(self).recording_phase == final(self).recording@.phase,
            !finished ==> *final(self) == *old(self),
    {
        let matches = match &self.pending_output {
            Some(p) => p.matches(recording_id, shortcut_id, OutputCompletion::ClipboardPaste),
            None => false,
        };
        if matches {
            self.finish_pending_output(recording_id, shortcut_id)
        } else {
            false
        }
    }

    /// Remembers to play the stop cue of a recording once its speakers are
    /// restored.
    pub fn queue_stop_cue(&mut self, recording_id: u64, shortcut_id: &str)
        ensures
            cue_set(final(self).pending_stop_cues@) == cue_set(old(self).pending_stop_cues@).insert(
                (recording_id, shortcut_id@),
            ),
            final(self).recording@ == old(self).recording@,
            final(self).pending_output == old(self).pending_output,
            final(self).recording_phase == old(self).recording_phase,
            final(self).pending_recording_start == old(self).pending_recording_start,
            final(self).next_recording_id == old(self).next_recording_id,
            final(self).is_quitting == old(self).is_quitting,
    {
        let ghost old_set = cue_set(self.pending_stop_cues@);
        if self.has_stop_cue(recording_id, shortcut_id) {
            assert(cue_set(self.pending_stop_cues@) =~= old_set.insert((recording_id, shortcut_id@)));
            return;
        }
        let ghost before = self.pending_stop_cues@;
        self.pending_stop_cues.push((recording_id, shortcut_id.to_string()));
        assert(cue_set(self.pending_stop_cues@) =~= old_set.insert((recording_id, shortcut_id@))) by {
            assert forall|c: (u64, Seq<char>)| #[trigger] cue_set(self.pending_stop_cues@).contains(
                c,
            ) implies old_set.insert((recording_id, shortcut_id@)).contains(c) by {
                let i = choose|i: int|
                    0 <= i < self.pending_stop_cues@.len() && self.pending_stop_cues@[i].0 == c.0
                        && self.pending_stop_cues@[i].1@ == c.1;
                if i < before.len() {
                    assert(before[i] == self.pending_stop_cues@[i]);
                }
            }
            assert forall|c: (u64, Seq<char>)| #[trigger] old_set.insert(
                (recording_id, shortcut_id@),
            ).contains(c) implies cue_set(self.pending_stop_cues@).contains(c) by {
                if c == (recording_id, shortcut_id@) {
                    let last = before.len() as int;
                    assert(self.pending_stop_cues@[last].0 == c.0);
                } else {
                    let i = choose|i: int| 0 <= i < before.len() && before[i].0 == c.0 && before[i].1@ == c.1;
                    assert(self.pending_stop_cues@[i] == before[i]);
                }
            }
        }
    }

    fn has_stop_cue(&self, recording_id: u64, shortcut_id: &str) -> (b: bool)
        ensures
            b == cue_set(self.pending_stop_cues@).contains((recording_id, shortcut_id@)),
    {
        let mut i: usize = 0;
        while i < self.pending_stop_cues.len()
            invariant
                i <= self.pending_stop_cues@.len(),
                forall|j: int|
                    0 <= j < i ==> !(self.pending_stop_cues@[j].0 == recording_id
                        && #[trigger] self.pending_stop_cues@[j].1@ == shortcut_id@),
            decreases self.pending_stop_cues@.len() - i,
        {
            let entry = &self.pending_stop_cues[i];
            if entry.0 == recording_id && same_str(entry.1.as_str(), shortcut_id) {
                return true;
            }
            i = i + 1;
        }
        false
    }

    /// Takes the stop cue of a recording, if one was waiting; returns
    /// whether to play it now.
    pub fn take_stop_cue(&mut self, recording_id: u64, shortcut_id: &str) -> (b: bool)
        ensures
            b == cue_set(old(self).pending_stop_cues@).contains((recording_id, shortcut_id@)),
            cue_set(final(self).pending_stop_cues@) == cue_set(old(self).pending_stop_cues@).remove(
                (recording_id, shortcut_id@),
            ),
            final(self).recording@ == old(self).recording@,
            final(self).pending_output == old(self).pending_output,
            final(self).recording_phase == old(self).recording_phase,
            final(self).pending_recording_start == old(self).pending_recording_start,
            final(self).next_recording_id == old(self).next_recording_id,
            final(self).is_quitting == old(self).is_quitting,
    {
        let ghost old_v = self.pending_stop_cues@;
        let mut kept: Vec<(u64, String)> = Vec::new();
        let mut found = false;
        let mut i: usize = 0;
        while i < self.pending_stop_cues.len()
            invariant
                i <= self.pending_stop_cues@.len(),
                self.pending_stop_cues@ == old_v,
                found == (exists|j: int|
                    0 <= j < i && old_v[j].0 == recording_id && #[trigger] old_v[j].1@
                        == shortcut_id@),
                forall|c: (u64, Seq<char>)| #[trigger]
                    cue_set(kept@).contains(c) <==> (c != (recording_id, shortcut_id@) && exists|
                        j: int,
                    | 0 <= j < i && old_v[j].0 == c.0 && old_v[j].1@ == c.1),
            decreases self.pending_stop_cues@.len() - i,
        {
            let ghost before = kept@;
            let is_target = self.pending_stop_cues[i].0 == recording_id && same_str(
                self.pending_stop_cues[i].1.as_str(),
                shortcut_id,
            );
            if is_target {
                found = true;
            } else {
                let entry = (self.pending_stop_cues[i].0, self.pending_stop_cues[i].1.clone());
                kept.push(entry);
            }
            assert forall|c: (u64, Seq<char>)| #[trigger]
                cue_set(kept@).contains(c) <==> (c != (recording_id, shortcut_id@) && exists|
                    j: int,
                | 0 <= j < i + 1 && old_v[j].0 == c.0 && old_v[j].1@ == c.1) by {
                if cue_set(kept@).contains(c) {
                    let k = choose|k: int| 0 <= k < kept@.len() && kept@[k].0 == c.0 && kept@[k].1@ == c.1;
                    if k < before.len() {
                        assert(kept@[k] == before[k]);
                        assert(cue_set(before).contains(c));
                    } else {
                        assert(old_v[i as int].0 == c.0 && old_v[i as int].1@ == c.1);
                    }
                }
                if c != (recording_id, shortcut_id@) && exists|j: int|
                    0 <= j < i + 1 && old_v[j].0 == c.0 && old_v[j].1@ == c.1 {
                    let j = choose|j: int| 0 <= j < i + 1 && old_v[j].0 == c.0 && old_v[j].1@ == c.1;
                    if j < i {
                        assert(cue_set(before).contains(c));
                        let k = choose|k: int|
                            0 <= k < before.len() && before[k].0 == c.0 && before[k].1@ == c.1;
                        assert(kept@[k] == before[k]);
                    } else {
                        assert(kept@[before.len() as int].0 == c.0);
                    }
                }
            }
            i = i + 1;
        }
        self.pending_stop_cues = kept;
        assert(cue_set(self.pending_stop_cues@) =~= cue_set(old_v).remove(
            (recording_id, shortcut_id@),
        ));
        found
    }
}

/// Whether the duration limit still concerns this recording: it is the
/// owned one and still arming or recording.
pub fn recording_duration_limit_applies(recording: &RecordingService, recording_id: u64, shortcut_id: &str) -> (b: bool)
    ensures
        b == (recording@.active_id() == Some(recording_id) && recording@.active_shortcut()
            == Some(shortcut_id@) && (recording@.phase == RecordingPhase::Arming
            || recording@.phase == RecordingPhase::Recording)),
{
    let same_id = recording.active_recording_id() == Some(recording_id);
    let same_shortcut = match recording.active_shortcut_id() {
        Some(s) => same_str(s, shortcut_id),
        None => false,
    };
    let phase = recording.phase();
    same_id && same_shortcut && (phase == RecordingPhase::Arming || phase
        == RecordingPhase::Recording)
}

/// Whether a finished transcription is added to the history: only a
/// completed one whose output runs no script (a script's own text is
/// recorded when it finishes).
pub fn records_transcription_history(completed: bool, has_script: bool) -> (b: bool)
    ensures
        b == (completed && !has_script),
{
    completed && !has_script
}

/// The message of a trigger that reached the app after its deadline.
pub fn trigger_expired_message() -> (s: String)
    ensures
        s@ == "trigger request expired before MyApp processed it"@,
{
    string_from_chars(chars_of("trigger request expired before MyApp processed it").as_slice())
}

/// The message of a trigger refused because the app is quitting.
pub fn quitting_message() -> (s: String)
    ensures
        s@ == "MyApp is quitting"@,
{
    string_from_chars(chars_of("MyApp is quitting").as_slice())
}


/// What the runtime does with an external trigger request.
#[derive(Debug, Clone, PartialEq, Eq)]
pub enum ExternalTriggerPlan {
    /// Answer at once, without touching the recorder.
    Respond(ExternalTriggerResponse),
    /// Start, stop or toggle the recording of this shortcut.
    Dispatch { shortcut_id: String, action: ExternalTriggerAction },
}

/// How the runtime handles a trigger request: one that arrived after its
/// deadline is refused; otherwise its selector is resolved to a shortcut,
/// and the request refused with the reason when that fails.
pub fn plan_external_trigger(expired: bool, config: &AppConfig, request: &ExternalTriggerRequest) -> (p: ExternalTriggerPlan)
    ensures
        expired ==> (p matches ExternalTriggerPlan::Respond(ExternalTriggerResponse::Rejected(m)) && m@
            == "trigger request expired before MyApp processed it"@),
        !expired ==> match selector_resolution(config.shortcuts@, request.shortcut@) {
            Ok(id) => p matches ExternalTriggerPlan::Dispatch { shortcut_id, action } && shortcut_id@
                == id && action == request.action,
            Err(e) => p matches ExternalTriggerPlan::Respond(ExternalTriggerResponse::Rejected(m)) && m@
                == e,
        },
{
    if expired {
        let m = trigger_expired_message();
        return ExternalTriggerPlan::Respond(ExternalTriggerResponse::rejected(m.as_str()));
    }
    match resolve_shortcut_selector(config, request.shortcut.as_str()) {
        Ok(shortcut_id) => ExternalTriggerPlan::Dispatch { shortcut_id, action: request.action },
        Err(e) => ExternalTriggerPlan::Respond(ExternalTriggerResponse::rejected(e.as_str())),
    }
}

/// The answer to a dispatched trigger: accepted when the recorder did what
/// was asked, else refused with the reason.
pub fn trigger_outcome_response(outcome: Result<(), String>) -> (r: ExternalTriggerResponse)
    ensures
        match outcome {
            Ok(()) => r == ExternalTriggerResponse::Accepted,
            Err(reason) => r matches ExternalTriggerResponse::Rejected(m) && m@ == reason@,
        },
{
    match outcome {
        Ok(()) => ExternalTriggerResponse::accepted(),
        Err(reason) => ExternalTriggerResponse::rejected(reason.as_str()),
    }
}


/// A queued stop cue is taken exactly once: taking it after queueing finds
/// it, and taking it again finds nothing.
pub proof fn lemma_stop_cue_taken_once(queued: Set<(u64, Seq<char>)>, cue: (u64, Seq<char>))
    ensures
        queued.insert(cue).contains(cue),
        !queued.insert(cue).remove(cue).contains(cue),
        queued.insert(cue).remove(cue) == queued.remove(cue),
{
    assert(queued.insert(cue).remove(cue) =~= queued.remove(cue));
}

} // verus!
