//! The recording cues: two short tones, rising to start and falling to
//! stop, with a gap between them and short fades at their ends.
use vstd::prelude::*;

verus! {

/// Length of each tone, in milliseconds.
pub const TONE_DURATION_MS: u32 = 90;

/// Silence between the two tones, in milliseconds.
pub const GAP_DURATION_MS: u32 = 35;

/// Length of the fade at each end of a tone, in milliseconds.
pub const FADE_DURATION_MS: u32 = 8;

/// Which cue to play.
#[derive(Debug, Clone, Copy, PartialEq, Eq, Structural)]
pub enum BeepCue {
    Start,
    Stop,
}

/// The pitch of one tone of a cue.
#[derive(Debug, Clone, Copy, PartialEq, Eq, Structural)]
pub enum TonePitch {
    /// 440 Hz.
    Low,
    /// 880 Hz.
    High,
}

/// The tones of a cue in order: low then high to start, high then low to
/// stop.
pub fn cue_tones(cue: BeepCue) -> (t: [TonePitch; 2])
    ensures
        t@ == (match cue {
            BeepCue::Start => seq![TonePitch::Low, TonePitch::High],
            BeepCue::Stop => seq![TonePitch::High, TonePitch::Low],
        }),
{
    match cue {
        BeepCue::Start => [TonePitch::Low, TonePitch::High],
        BeepCue::Stop => [TonePitch::High, TonePitch::Low],
    }
}

/// The whole frames that `duration_ms` milliseconds last at `sample_rate`,
/// truncated to `usize` as a cast does.
pub fn duration_frames(duration_ms: u32, sample_rate: u32) -> (n: usize)
    ensures
        n == ((duration_ms as int * sample_rate as int) / 1000) as usize,
{
    assert(duration_ms as int * sample_rate as int <= 4294967295 * 4294967295) by (nonlinear_arith)
        requires
            duration_ms <= 4294967295,
            sample_rate <= 4294967295,
    ;
    let product: u64 = duration_ms as u64 * sample_rate as u64;
    #[verifier::truncate]
    ((product / 1000) as usize)
}

/// The number of samples of the gap between the tones: its frames times
/// the channels, saturating.
pub fn silence_sample_count(sample_rate: u32, channels: u16) -> (n: usize)
    ensures
        n == crate::audio::saturated(
            ((GAP_DURATION_MS as int * sample_rate as int) / 1000) * channels as int,
        ),
{
    let frames = duration_frames(GAP_DURATION_MS, sample_rate);
    crate::audio::saturating_mul_usize(frames, channels as usize)
}

/// The part of a tone a frame falls in: the fade in, the fade out, or the
/// steady middle.
#[derive(Debug, Clone, Copy, PartialEq, Eq, Structural)]
pub enum FadeSegment {
    /// Rising: the envelope is `frame / fade_frames`.
    FadeIn { frame: usize },
    /// Falling: the envelope is `remaining / fade_frames`.
    FadeOut { remaining: usize },
    /// Full volume.
    Full,
}

/// Where a frame of a tone lies: in the fade in while it is among the
/// first `fade_frames`, in the fade out while fewer than `fade_frames`
/// frames follow it, else at full volume.
pub fn fade_segment(frame: usize, frames: usize, fade_frames: usize) -> (s: FadeSegment)
    requires
        frame < usize::MAX,
    ensures
        s == (if frame < fade_frames {
            FadeSegment::FadeIn { frame }
        } else if (if frames > frame + 1 {
            frames - frame - 1
        } else {
            0
        }) < fade_frames {
            FadeSegment::FadeOut {
                remaining: (if frames > frame + 1 {
                    frames - frame - 1
                } else {
                    0
                }) as usize,
            }
        } else {
            FadeSegment::Full
        }),
{
    if frame < fade_frames {
        return FadeSegment::FadeIn { frame };
    }
    let remaining = frames.saturating_sub(frame + 1);
    if remaining < fade_frames {
        return FadeSegment::FadeOut { remaining };
    }
    FadeSegment::Full
}

/// The fade length in frames: at least one.
pub fn fade_frames_for(sample_rate: u32) -> (n: usize)
    ensures
        n == (if (FADE_DURATION_MS as int * sample_rate as int) / 1000 >= 1 {
            (FADE_DURATION_MS as int * sample_rate as int) / 1000
        } else {
            1
        }),
{
    let n = duration_frames(FADE_DURATION_MS, sample_rate);
    if n >= 1 {
        n
    } else {
        1
    }
}

/// Whole frames in `samples` interleaved samples of `channels` channels.
pub fn playback_frames(samples: usize, channels: u16) -> (n: usize)
    requires
        channels > 0,
    ensures
        n == samples as int / channels as int,
{
    samples / channels as usize
}

} // verus!
