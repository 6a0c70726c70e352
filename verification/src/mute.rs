//! Muting speakers while recording: which tool to use, what its status
//! output means, and which playback targets to unmute afterwards.
use vstd::prelude::*;

use crate::text::{chars_equal, chars_of, has_prefix, join_strings, joined, push_decimal, push_str, slice_chars, starts_with_chars, string_from_chars, trim, trim_chars};

verus! {

/// Why a mute status could not be read or a mute could not be set up.
#[derive(Debug, Clone, PartialEq, Eq)]
pub enum MuteError {
    /// `wpctl` printed nothing.
    EmptyWpctlStatus,
    /// `pactl` output did not start with `Mute:`.
    MissingMutePrefix,
    /// `pactl` reported a mute state other than yes or no.
    UnsupportedPactlStatus(String),
    /// Neither wpctl nor pactl is installed.
    NoBackend,
    /// Another recording already owns the mute state.
    Busy { recording_id: u64, shortcut_id: String },
    /// No playback target was found.
    NoTargets,
    /// Every playback target failed; the failures joined by `; `.
    AllTargetsFailed(String),
}

/// Whether `w` occurs in `v`.
pub open spec fn occurs(v: Seq<char>, w: Seq<char>) -> bool {
    crate::text::has_infix(v, w)
}

/// The muted state that `wpctl get-volume` output reports.
pub fn parse_wpctl_muted(output: &str) -> (r: Result<bool, MuteError>)
    ensures
        trim(output@).len() == 0 ==> r == Err::<bool, MuteError>(MuteError::EmptyWpctlStatus),
        trim(output@).len() > 0 ==> r == Ok::<bool, MuteError>(occurs(trim(output@), "[MUTED]"@)),
{
    let v = chars_of(output);
    let line = trim_chars(v.as_slice());
    if line.len() == 0 {
        return Err(MuteError::EmptyWpctlStatus);
    }
    let marker = chars_of("[MUTED]");
    Ok(crate::text::contains_chars(line.as_slice(), marker.as_slice()))
}

/// The value after `Mute:` in `pactl get-sink-mute` output, trimmed.
pub open spec fn pactl_value(output: Seq<char>) -> Option<Seq<char>> {
    let t = trim(output);
    if has_prefix(t, "Mute:"@) {
        Some(trim(t.subrange(5, t.len() as int)))
    } else {
        None
    }
}

/// The muted state that `pactl get-sink-mute` output reports.
pub fn parse_pactl_muted(output: &str) -> (r: Result<bool, MuteError>)
    ensures
        match pactl_value(output@) {
            None => r == Err::<bool, MuteError>(MuteError::MissingMutePrefix),
            Some(v) => if v == "yes"@ {
                r == Ok::<bool, MuteError>(true)
            } else if v == "no"@ {
                r == Ok::<bool, MuteError>(false)
            } else {
                r is Err && r->Err_0 is UnsupportedPactlStatus
                    && r->Err_0->UnsupportedPactlStatus_0@ == v
            },
        },
{
    let v = chars_of(output);
    let t = trim_chars(v.as_slice());
    let prefix = chars_of("Mute:");
    proof {
        reveal_strlit("Mute:");
    }
    if !starts_with_chars(t.as_slice(), prefix.as_slice()) {
        return Err(MuteError::MissingMutePrefix);
    }
    let rest = slice_chars(t.as_slice(), 5, t.len());
    let value = trim_chars(rest.as_slice());
    let yes = chars_of("yes");
    let no = chars_of("no");
    if chars_equal(value.as_slice(), yes.as_slice()) {
        Ok(true)
    } else if chars_equal(value.as_slice(), no.as_slice()) {
        Ok(false)
    } else {
        Err(MuteError::UnsupportedPactlStatus(string_from_chars(value.as_slice())))
    }
}

/// The command-line value that sets a mute state.
pub fn mute_arg(muted: bool) -> (s: &'static str)
    ensures
        s@ == (if muted {
            "1"@
        } else {
            "0"@
        }),
{
    if muted {
        "1"
    } else {
        "0"
    }
}

/// The tool used to mute playback.
#[derive(Debug, Clone, Copy, PartialEq, Eq, Structural)]
pub enum SpeakerMuteBackend {
    PipeWire,
    Wpctl,
    Pactl,
}

impl SpeakerMuteBackend {
    /// The command that reads and sets mute states.
    pub fn command(self) -> (s: &'static str)
        ensures
            s@ == (match self {
                SpeakerMuteBackend::PipeWire => "wpctl"@,
                SpeakerMuteBackend::Wpctl => "wpctl"@,
                SpeakerMuteBackend::Pactl => "pactl"@,
            }),
    {
        match self {
            SpeakerMuteBackend::PipeWire => "wpctl",
            SpeakerMuteBackend::Wpctl => "wpctl",
            SpeakerMuteBackend::Pactl => "pactl",
        }
    }

    /// The packages that provide the backend.
    pub fn package_hint(self) -> (s: &'static str)
        ensures
            s@ == (match self {
                SpeakerMuteBackend::PipeWire => "wireplumber and pipewire-bin"@,
                SpeakerMuteBackend::Wpctl => "wireplumber"@,
                SpeakerMuteBackend::Pactl => "pulseaudio-utils"@,
            }),
    {
        match self {
            SpeakerMuteBackend::PipeWire => "wireplumber and pipewire-bin",
            SpeakerMuteBackend::Wpctl => "wireplumber",
            SpeakerMuteBackend::Pactl => "pulseaudio-utils",
        }
    }

    /// The backend's name in logs.
    pub fn label(self) -> (s: &'static str)
        ensures
            s@ == (match self {
                SpeakerMuteBackend::PipeWire => "wpctl+pw-dump"@,
                SpeakerMuteBackend::Wpctl => "wpctl"@,
                SpeakerMuteBackend::Pactl => "pactl"@,
            }),
    {
        match self {
            SpeakerMuteBackend::PipeWire => "wpctl+pw-dump",
            SpeakerMuteBackend::Wpctl => "wpctl",
            SpeakerMuteBackend::Pactl => "pactl",
        }
    }
}

/// Which mute tools are installed.
#[derive(Debug, Clone, Copy, PartialEq, Eq, Structural)]
pub struct MuteTools {
    pub wpctl: bool,
    pub pw_dump: bool,
    pub pactl: bool,
}

/// The best backend that the installed tools allow: PipeWire streams with
/// wpctl and pw-dump, the default sink with wpctl alone, else pactl.
pub fn detect_speaker_mute_backend(tools: MuteTools) -> (r: Result<SpeakerMuteBackend, MuteError>)
    ensures
        tools.wpctl && tools.pw_dump ==> r == Ok::<SpeakerMuteBackend, MuteError>(
            SpeakerMuteBackend::PipeWire,
        ),
        tools.wpctl && !tools.pw_dump ==> r == Ok::<SpeakerMuteBackend, MuteError>(
            SpeakerMuteBackend::Wpctl,
        ),
        !tools.wpctl && tools.pactl ==> r == Ok::<SpeakerMuteBackend, MuteError>(
            SpeakerMuteBackend::Pactl,
        ),
        !tools.wpctl && !tools.pactl ==> r == Err::<SpeakerMuteBackend, MuteError>(
            MuteError::NoBackend,
        ),
{
    if tools.wpctl && tools.pw_dump {
        Ok(SpeakerMuteBackend::PipeWire)
    } else if tools.wpctl {
        Ok(SpeakerMuteBackend::Wpctl)
    } else if tools.pactl {
        Ok(SpeakerMuteBackend::Pactl)
    } else {
        Err(MuteError::NoBackend)
    }
}

/// The status line of the mute tools for the settings page.
pub fn speaker_mute_tools_status(tools: MuteTools) -> (s: String)
    ensures
        s@ == (if tools.wpctl && tools.pw_dump {
            "Ready: wpctl + pw-dump"@
        } else if tools.wpctl {
            "Limited: wpctl only (missing pw-dump for stream mute)"@
        } else if tools.pactl {
            "Limited: pactl (default sink only)"@
        } else {
            "Missing: wpctl + pw-dump or pactl"@
        }),
{
    let mut out: Vec<char> = Vec::new();
    if tools.wpctl && tools.pw_dump {
        push_str(&mut out, "Ready: wpctl + pw-dump");
    } else if tools.wpctl {
        push_str(&mut out, "Limited: wpctl only (missing pw-dump for stream mute)");
    } else if tools.pactl {
        push_str(&mut out, "Limited: pactl (default sink only)");
    } else {
        push_str(&mut out, "Missing: wpctl + pw-dump or pactl");
    }
    string_from_chars(out.as_slice())
}

/// What a mute target is.
#[derive(Debug, Clone, Copy, PartialEq, Eq, Structural)]
pub enum SpeakerMuteTargetKind {
    PlaybackStream,
    DefaultSink,
}

/// One playback target to mute.
#[derive(Debug, Clone, PartialEq, Eq)]
pub struct SpeakerMuteTarget {
    pub backend: SpeakerMuteBackend,
    pub target_id: String,
    pub label: String,
    pub kind: SpeakerMuteTargetKind,
}

/// [`SpeakerMuteTarget`] with its strings as characters.
pub struct TargetView {
    pub backend: SpeakerMuteBackend,
    pub target_id: Seq<char>,
    pub label: Seq<char>,
    pub kind: SpeakerMuteTargetKind,
}

impl View for SpeakerMuteTarget {
    type V = TargetView;

    open spec fn view(&self) -> TargetView {
        TargetView {
            backend: self.backend,
            target_id: self.target_id@,
            label: self.label@,
            kind: self.kind,
        }
    }
}

impl SpeakerMuteTarget {
    /// The default sink target through wpctl.
    pub open spec fn wpctl_default_sink_view(backend: SpeakerMuteBackend) -> TargetView {
        TargetView {
            backend,
            target_id: "@DEFAULT_AUDIO_SINK@"@,
            label: "Default audio sink"@,
            kind: SpeakerMuteTargetKind::DefaultSink,
        }
    }

    /// The default sink target through pactl.
    pub open spec fn pactl_default_sink_view() -> TargetView {
        TargetView {
            backend: SpeakerMuteBackend::Pactl,
            target_id: "@DEFAULT_SINK@"@,
            label: "Default audio sink"@,
            kind: SpeakerMuteTargetKind::DefaultSink,
        }
    }

    /// A PipeWire playback stream, named by its node id.
    pub fn pipewire_stream(id: u64, label: String) -> (t: Self)
        ensures
            t@ == (TargetView {
                backend: SpeakerMuteBackend::PipeWire,
                target_id: crate::text::decimal(id as nat),
                label: label@,
                kind: SpeakerMuteTargetKind::PlaybackStream,
            }),
    {
        let mut out: Vec<char> = Vec::new();
        push_decimal(&mut out, id);
        assert(out@ =~= crate::text::decimal(id as nat));
        SpeakerMuteTarget {
            backend: SpeakerMuteBackend::PipeWire,
            target_id: string_from_chars(out.as_slice()),
            label,
            kind: SpeakerMuteTargetKind::PlaybackStream,
        }
    }

    /// The default sink through wpctl.
    pub fn wpctl_default_sink(backend: SpeakerMuteBackend) -> (t: Self)
        ensures
            t@ == (TargetView {
                backend,
                target_id: "@DEFAULT_AUDIO_SINK@"@,
                label: "Default audio sink"@,
                kind: SpeakerMuteTargetKind::DefaultSink,
            }),
    {
        SpeakerMuteTarget {
            backend,
            target_id: "@DEFAULT_AUDIO_SINK@".to_owned(),
            label: "Default audio sink".to_owned(),
            kind: SpeakerMuteTargetKind::DefaultSink,
        }
    }

    /// The default sink through pactl.
    pub fn pactl_default_sink() -> (t: Self)
        ensures
            t@ == (TargetView {
                backend: SpeakerMuteBackend::Pactl,
                target_id: "@DEFAULT_SINK@"@,
                label: "Default audio sink"@,
                kind: SpeakerMuteTargetKind::DefaultSink,
            }),
    {
        SpeakerMuteTarget {
            backend: SpeakerMuteBackend::Pactl,
            target_id: "@DEFAULT_SINK@".to_owned(),
            label: "Default audio sink".to_owned(),
            kind: SpeakerMuteTargetKind::DefaultSink,
        }
    }

    /// A copy of the target.
    pub fn duplicate(&self) -> (t: Self)
        ensures
            t@ == self@,
    {
        SpeakerMuteTarget {
            backend: self.backend,
            target_id: self.target_id.clone(),
            label: self.label.clone(),
            kind: self.kind,
        }
    }

    /// The kind's name in logs.
    pub fn kind_label(&self) -> (s: &'static str)
        ensures
            s@ == (match self.kind {
                SpeakerMuteTargetKind::PlaybackStream => "playback_stream"@,
                SpeakerMuteTargetKind::DefaultSink => "default_sink"@,
            }),
    {
        match self.kind {
            SpeakerMuteTargetKind::PlaybackStream => "playback_stream",
            SpeakerMuteTargetKind::DefaultSink => "default_sink",
        }
    }
}

/// A target that a recording muted, with its state before.
#[derive(Debug, Clone, PartialEq, Eq)]
pub struct ActiveSpeakerMuteTarget {
    pub target: SpeakerMuteTarget,
    pub previous_muted: bool,
    pub changed: bool,
}

/// What muting a target that was `previous_muted` leaves: the target is
/// changed, and must be set muted, exactly when it was not muted.
pub fn mute_target(target: SpeakerMuteTarget, previous_muted: bool) -> (r: (
    ActiveSpeakerMuteTarget,
    bool,
))
    ensures
        r.0.target@ == target@,
        r.0.previous_muted == previous_muted,
        r.0.changed == !previous_muted,
        r.1 == !previous_muted,
{
    let changed = !previous_muted;
    (ActiveSpeakerMuteTarget { target, previous_muted, changed }, changed)
}

/// [`ActiveSpeakerMuteTarget`] with the target's strings as characters.
pub type MutedView = (TargetView, bool, bool);

/// The muted targets that a list of (target, muted before) readings gives:
/// each changed exactly when it was not muted before.
pub open spec fn muted_from(ps: Seq<(SpeakerMuteTarget, bool)>) -> Seq<MutedView> {
    ps.map_values(|p: (SpeakerMuteTarget, bool)| (p.0@, p.1, !p.1))
}

/// The mute state that one recording owns.
#[derive(Debug, Clone, PartialEq, Eq)]
pub struct ActiveSpeakerMute {
    pub recording_id: u64,
    pub shortcut_id: String,
    pub targets: Vec<ActiveSpeakerMuteTarget>,
}

/// The abstract muted targets of a sequence of muted targets.
pub open spec fn muted_views(ts: Seq<ActiveSpeakerMuteTarget>) -> Seq<MutedView> {
    ts.map_values(|t: ActiveSpeakerMuteTarget| (t.target@, t.previous_muted, t.changed))
}

/// The (target, muted) settings that undo the muting of `ts`: the changed
/// targets, last muted first, each set back to its state before.
pub open spec fn restore_actions(ts: Seq<MutedView>) -> Seq<(TargetView, bool)>
    decreases ts.len(),
{
    if ts.len() == 0 {
        seq![]
    } else {
        let last = ts.last();
        let head = if last.2 {
            seq![(last.0, last.1)]
        } else {
            seq![]
        };
        head + restore_actions(ts.drop_last())
    }
}

/// The abstract state of a [`SpeakerMuteState`]: the owning recording and
/// its muted targets, when a mute is active.
pub type MuteStateView = Option<(u64, Seq<char>, Seq<MutedView>)>;

/// The speaker mute that is active, if any.
#[derive(Debug, Default)]
pub struct SpeakerMuteState {
    active: Option<ActiveSpeakerMute>,
}

impl View for SpeakerMuteState {
    type V = MuteStateView;

    closed spec fn view(&self) -> MuteStateView {
        match self.active {
            Some(a) => Some((a.recording_id, a.shortcut_id@, muted_views(a.targets@))),
            None => None,
        }
    }
}

/// Every muted target was changed exactly when it was not muted before.
pub open spec fn targets_consistent(ts: Seq<MutedView>) -> bool {
    forall|i: int| 0 <= i < ts.len() ==> (#[trigger] ts[i]).2 == !ts[i].1
}

/// The state keeps only consistent target lists.
pub open spec fn mute_state_consistent(s: MuteStateView) -> bool {
    match s {
        Some((_, _, ts)) => targets_consistent(ts),
        None => true,
    }
}

/// The muted targets of the active mute.
pub open spec fn active_targets(s: MuteStateView) -> Seq<MutedView> {
    match s {
        Some((_, _, ts)) => ts,
        None => seq![],
    }
}

/// Whether the active mute belongs to this recording.
pub open spec fn owns_mute(s: MuteStateView, recording_id: u64, shortcut_id: Seq<char>) -> bool {
    s matches Some((id, sid, _)) && id == recording_id && sid == shortcut_id
}

impl SpeakerMuteState {
    /// No mute is active.
    pub fn new() -> (s: Self)
        ensures
            s@ is None,
    {
        SpeakerMuteState { active: None }
    }

    /// Refuses a new mute while another recording owns the mute state.
    pub fn check_available(&self) -> (r: Result<(), MuteError>)
        ensures
            r is Ok <==> self@ is None,
            self@ matches Some((id, sid, _)) ==> r is Err && r->Err_0 is Busy
                && r->Err_0->Busy_recording_id == id && r->Err_0->Busy_shortcut_id@ == sid,
    {
        match &self.active {
            Some(a) => Err(
                MuteError::Busy { recording_id: a.recording_id, shortcut_id: a.shortcut_id.clone() },
            ),
            None => Ok(()),
        }
    }

    /// Records the targets that a recording muted, each with whether it was
    /// muted before. The mute becomes active when no other mute is and at
    /// least one target was muted; with none, the error says whether targets
    /// were missing or all failed.
    pub fn mute_playback_for_recording(
        &mut self,
        recording_id: u64,
        shortcut_id: &str,
        muted: Vec<(SpeakerMuteTarget, bool)>,
        failures: Vec<String>,
    ) -> (r: Result<(), MuteError>)
        ensures
            old(self)@ is Some ==> r is Err && r->Err_0 is Busy && final(self)@ == old(self)@,
            old(self)@ is None && muted@.len() == 0 && failures@.len() == 0 ==> r == Err::<
                (),
                MuteError,
            >(MuteError::NoTargets) && final(self)@ is None,
            old(self)@ is None && muted@.len() == 0 && failures@.len() > 0 ==> r is Err
                && r->Err_0 is AllTargetsFailed && r->Err_0->AllTargetsFailed_0@ == joined(
                failures@.map_values(|p: String| p@),
                "; "@,
            ) && final(self)@ is None,
            old(self)@ is None && muted@.len() > 0 ==> r is Ok && final(self)@ == Some(
                (recording_id, shortcut_id@, muted_from(muted@)),
            ),
            mute_state_consistent(old(self)@) ==> mute_state_consistent(final(self)@),
    {
        match self.check_available() {
            Ok(()) => {},
            Err(e) => {
                return Err(e);
            },
        }
        if muted.len() == 0 {
            if failures.len() == 0 {
                return Err(MuteError::NoTargets);
            }
            return Err(MuteError::AllTargetsFailed(join_strings(&failures, "; ")));
        }
        let ghost all = muted@;
        let mut targets: Vec<ActiveSpeakerMuteTarget> = Vec::new();
        let mut rest = muted;
        assert(all.skip(0) =~= all);
        assert(muted_views(targets@) =~= muted_from(all.take(0)));
        while rest.len() > 0
            invariant
                0 < all.len(),
                targets@.len() + rest@.len() == all.len(),
                rest@ == all.skip(targets@.len() as int),
                muted_views(targets@) == muted_from(all.take(targets@.len() as int)),
            decreases rest@.len(),
        {
            let ghost k = targets@.len() as int;
            let (target, previous_muted) = rest.remove(0);
            assert(all[k] == (target, previous_muted));
            let ghost view = (target@, previous_muted, !previous_muted);
            let (t, _) = mute_target(target, previous_muted);
            let ghost before = targets@;
            targets.push(t);
            assert(rest@ =~= all.skip(k + 1));
            assert(muted_views(targets@) =~= muted_views(before).push(view));
            assert(all.take(k + 1) =~= all.take(k).push(all[k]));
            assert(muted_from(all.take(k + 1)) =~= muted_from(all.take(k)).push(view));
        }
        assert(all.take(all.len() as int) =~= all);
        self.active = Some(
            ActiveSpeakerMute {
                recording_id,
                shortcut_id: shortcut_id.to_owned(),
                targets,
            },
        );
        Ok(())
    }

    /// When this recording owns the active mute, takes it and returns the
    /// settings that undo it; otherwise changes nothing.
    pub fn restore_playback_for_recording(&mut self, recording_id: u64, shortcut_id: &str) -> (actions: Vec<(SpeakerMuteTarget, bool)>)
        ensures
            owns_mute(old(self)@, recording_id, shortcut_id@) ==> final(self)@ is None
                && actions@.map_values(|a: (SpeakerMuteTarget, bool)| (a.0@, a.1))
                == restore_actions(active_targets(old(self)@)),
            !owns_mute(old(self)@, recording_id, shortcut_id@) ==> final(self)@ == old(self)@
                && actions@.len() == 0,
    {
        let owned = match &self.active {
            Some(current) => {
                if current.recording_id != recording_id {
                    false
                } else {
                    let own = chars_of(current.shortcut_id.as_str());
                    let other = chars_of(shortcut_id);
                    chars_equal(own.as_slice(), other.as_slice())
                }
            },
            None => false,
        };
        if !owned {
            return Vec::new();
        }
        self.restore_active_speaker_mute()
    }

    /// Takes the active mute and returns the settings that undo it.
    pub fn restore_active_speaker_mute(&mut self) -> (actions: Vec<(SpeakerMuteTarget, bool)>)
        ensures
            final(self)@ is None,
            actions@.map_values(|a: (SpeakerMuteTarget, bool)| (a.0@, a.1)) == match old(self)@ {
                Some((_, _, ts)) => restore_actions(ts),
                None => Seq::<(TargetView, bool)>::empty(),
            },
    {
        let taken = self.active.take();
        let mut actions: Vec<(SpeakerMuteTarget, bool)> = Vec::new();
        match taken {
            Some(current) => {
                let ghost ts = muted_views(current.targets@);
                let mut i: usize = current.targets.len();
                assert(ts.subrange(0, i as int) =~= ts);
                assert(actions@.map_values(|a: (SpeakerMuteTarget, bool)| (a.0@, a.1)) =~= Seq::<
                    (TargetView, bool),
                >::empty());
                while i > 0
                    invariant
                        i <= current.targets@.len(),
                        ts == muted_views(current.targets@),
                        actions@.map_values(|a: (SpeakerMuteTarget, bool)| (a.0@, a.1))
                            + restore_actions(ts.subrange(0, i as int)) == restore_actions(ts),
                    decreases i,
                {
                    let ghost before = actions@.map_values(
                        |a: (SpeakerMuteTarget, bool)| (a.0@, a.1),
                    );
                    let t = &current.targets[i - 1];
                    let ghost sub = ts.subrange(0, i as int);
                    assert(sub.drop_last() =~= ts.subrange(0, i - 1));
                    assert(sub.last() == ts[i - 1]);
                    if t.changed {
                        actions.push((t.target.duplicate(), t.previous_muted));
                        assert(actions@.map_values(|a: (SpeakerMuteTarget, bool)| (a.0@, a.1))
                            =~= before.push((t.target@, t.previous_muted)));
                    } else {
                        assert(actions@.map_values(|a: (SpeakerMuteTarget, bool)| (a.0@, a.1))
                            =~= before);
                    }
                    i = i - 1;
                }
                assert(ts.subrange(0, 0) =~= Seq::<MutedView>::empty());
                assert(actions@.map_values(|a: (SpeakerMuteTarget, bool)| (a.0@, a.1))
                    =~= actions@.map_values(|a: (SpeakerMuteTarget, bool)| (a.0@, a.1))
                    + restore_actions(ts.subrange(0, 0)));
            },
            None => {
                assert(actions@.map_values(|a: (SpeakerMuteTarget, bool)| (a.0@, a.1))
                    =~= Seq::<(TargetView, bool)>::empty());
            },
        }
        actions
    }
}

/// Undoing a mute only ever unmutes: the targets that were muted before
/// the recording are left alone, and every target the recording muted is
/// set back to unmuted.
pub proof fn lemma_restore_only_unmutes(ts: Seq<MutedView>)
    requires
        targets_consistent(ts),
    ensures
        forall|i: int| 0 <= i < restore_actions(ts).len() ==> !(#[trigger] restore_actions(ts)[i]).1,
        restore_actions(ts).len() <= ts.len(),
    decreases ts.len(),
{
    if ts.len() > 0 {
        assert(targets_consistent(ts.drop_last())) by {
            assert forall|i: int| 0 <= i < ts.drop_last().len() implies (#[trigger] ts.drop_last()[i]).2
                == !ts.drop_last()[i].1 by {
                assert(ts.drop_last()[i] == ts[i]);
            }
        }
        lemma_restore_only_unmutes(ts.drop_last());
        assert(ts.last() == ts[ts.len() - 1]);
    }
}

/// A target that was already muted yields no restore action; one that
/// the recording muted yields exactly one, first when it was muted last.
pub proof fn lemma_restore_last_first(ts: Seq<MutedView>, t: MutedView)
    ensures
        t.2 ==> restore_actions(ts.push(t)) == seq![(t.0, t.1)] + restore_actions(ts),
        !t.2 ==> restore_actions(ts.push(t)) == restore_actions(ts),
{
    assert(ts.push(t).drop_last() =~= ts);
    assert(seq![] + restore_actions(ts) =~= restore_actions(ts));
}

} // verus!
