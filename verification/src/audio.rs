//! Sizes, durations and counters of audio capture, and the rules that
//! decide whether captured audio is worth transcribing.
use vstd::prelude::*;

use crate::text::{chars_of, string_from_chars};

verus! {

/// Longest capture kept for one recording, in seconds.
pub const MAX_CAPTURE_SECONDS: usize = 60;

/// How much audio the callback ring buffer holds, in seconds.
pub const CALLBACK_BUFFER_SECONDS: usize = 2;

/// The input buffer size asked of the audio device, in frames.
pub const TARGET_INPUT_BUFFER_FRAMES: u32 = 1024;

/// The latency counter's value before the first callback was seen.
pub const NO_FIRST_CALLBACK_LATENCY: u64 = 18446744073709551615;

/// Captures shorter than this are not transcribed, in milliseconds.
pub const MIN_TRANSCRIBE_CAPTURE_MS: u128 = 1000;

/// The sample rate that whisper expects.
pub const WHISPER_SAMPLE_RATE: u32 = 16000;

/// `n` cut to the range of `usize`.
pub open spec fn saturated(n: int) -> usize {
    if n > usize::MAX {
        usize::MAX
    } else {
        n as usize
    }
}

/// `a * b`, or `usize::MAX` where the product does not fit
/// (`usize::saturating_mul`).
pub fn saturating_mul_usize(a: usize, b: usize) -> (r: usize)
    ensures
        r == saturated(a * b),
{
    match a.checked_mul(b) {
        Some(v) => v,
        None => usize::MAX,
    }
}

proof fn lemma_saturated_chain(a: int, b: int, c: int)
    requires
        a >= 0,
        b >= 0,
        c >= 1,
    ensures
        saturated(saturated(a * b) * c) == saturated(a * b * c),
{
    assert(a * b >= 0) by (nonlinear_arith)
        requires
            a >= 0,
            b >= 0,
    ;
    assert(a * b * c >= a * b) by (nonlinear_arith)
        requires
            a * b >= 0,
            c >= 1,
    ;
    if a * b > usize::MAX {
        assert(usize::MAX * c >= usize::MAX) by (nonlinear_arith)
            requires
                c >= 1,
        ;
    }
}

/// The most samples one capture keeps: rate × channels × the capture
/// limit, saturating.
pub fn max_capture_samples(sample_rate: u32, channels: u16) -> (r: usize)
    ensures
        r == saturated(sample_rate * channels * MAX_CAPTURE_SECONDS),
{
    let per_second = saturating_mul_usize(sample_rate as usize, channels as usize);
    let r = saturating_mul_usize(per_second, MAX_CAPTURE_SECONDS);
    proof {
        lemma_saturated_chain(sample_rate as int, channels as int, MAX_CAPTURE_SECONDS as int);
    }
    r
}

/// The capacity of the callback ring buffer: rate × channels × the drain
/// window, saturating.
pub fn callback_buffer_samples(sample_rate: u32, channels: u16) -> (r: usize)
    ensures
        r == saturated(sample_rate * channels * CALLBACK_BUFFER_SECONDS),
{
    let per_second = saturating_mul_usize(sample_rate as usize, channels as usize);
    let r = saturating_mul_usize(per_second, CALLBACK_BUFFER_SECONDS);
    proof {
        lemma_saturated_chain(
            sample_rate as int,
            channels as int,
            CALLBACK_BUFFER_SECONDS as int,
        );
    }
    r
}

/// The buffer sizes an input device supports.
#[derive(Debug, Clone, Copy, PartialEq, Eq, Structural)]
pub enum SupportedBufferSize {
    Range { min: u32, max: u32 },
    Unknown,
}

/// A valid range has its lower bound first.
pub open spec fn buffer_range_valid(b: SupportedBufferSize) -> bool {
    match b {
        SupportedBufferSize::Range { min, max } => min <= max,
        SupportedBufferSize::Unknown => true,
    }
}

/// The fixed buffer size to ask for: the target clamped to the supported
/// range, none where the range is unknown.
pub fn preferred_fixed_buffer_size(buffer_size: SupportedBufferSize) -> (r: Option<u32>)
    requires
        buffer_range_valid(buffer_size),
    ensures
        r == (match buffer_size {
            SupportedBufferSize::Range { min, max } => Some(
                if TARGET_INPUT_BUFFER_FRAMES < min {
                    min
                } else if TARGET_INPUT_BUFFER_FRAMES > max {
                    max
                } else {
                    TARGET_INPUT_BUFFER_FRAMES
                },
            ),
            SupportedBufferSize::Unknown => None,
        }),
{
    match buffer_size {
        SupportedBufferSize::Range { min, max } => {
            if TARGET_INPUT_BUFFER_FRAMES < min {
                Some(min)
            } else if TARGET_INPUT_BUFFER_FRAMES > max {
                Some(max)
            } else {
                Some(TARGET_INPUT_BUFFER_FRAMES)
            }
        },
        SupportedBufferSize::Unknown => None,
    }
}

/// One way of opening the input stream: with a fixed buffer size or the
/// device's default, and whether it is the last resort.
#[derive(Debug, Clone, Copy, PartialEq, Eq, Structural)]
pub struct StreamConfigAttempt {
    pub fixed_buffer_frames: Option<u32>,
    pub is_fallback: bool,
}

/// The stream configurations to try in order: the preferred fixed buffer
/// size where there is one, then the default configuration as fallback.
pub fn stream_config_attempts(buffer_size: SupportedBufferSize) -> (v: Vec<StreamConfigAttempt>)
    requires
        buffer_range_valid(buffer_size),
    ensures
        v@ == (match preferred_fixed_size_spec(buffer_size) {
            Some(frames) => seq![
                StreamConfigAttempt { fixed_buffer_frames: Some(frames), is_fallback: false },
                StreamConfigAttempt { fixed_buffer_frames: None, is_fallback: true },
            ],
            None => seq![StreamConfigAttempt { fixed_buffer_frames: None, is_fallback: true }],
        }),
{
    let mut attempts: Vec<StreamConfigAttempt> = Vec::new();
    if let Some(frames) = preferred_fixed_buffer_size(buffer_size) {
        attempts.push(StreamConfigAttempt { fixed_buffer_frames: Some(frames), is_fallback: false });
    }
    attempts.push(StreamConfigAttempt { fixed_buffer_frames: None, is_fallback: true });
    attempts
}

/// What [`preferred_fixed_buffer_size`] returns.
pub open spec fn preferred_fixed_size_spec(b: SupportedBufferSize) -> Option<u32> {
    match b {
        SupportedBufferSize::Range { min, max } => Some(
            if TARGET_INPUT_BUFFER_FRAMES < min {
                min
            } else if TARGET_INPUT_BUFFER_FRAMES > max {
                max
            } else {
                TARGET_INPUT_BUFFER_FRAMES
            },
        ),
        SupportedBufferSize::Unknown => None,
    }
}

/// Checks the default input configuration a device reports: it needs a
/// sample rate and at least one channel.
pub fn validate_input_config(sample_rate: u32, channels: u16) -> (r: Result<(), String>)
    ensures
        sample_rate == 0 ==> (r matches Err(e) && e@ == "input device reported zero sample rate"@),
        sample_rate != 0 && channels == 0 ==> (r matches Err(e) && e@
            == "input device reported zero channels"@),
        sample_rate != 0 && channels != 0 ==> r is Ok,
{
    if sample_rate == 0 {
        return Err(string_from_chars(chars_of("input device reported zero sample rate").as_slice()));
    }
    if channels == 0 {
        return Err(string_from_chars(chars_of("input device reported zero channels").as_slice()));
    }
    Ok(())
}

/// Whole frames in `sample_count` interleaved samples; none without
/// channels.
pub fn frame_count(sample_count: usize, channels: u16) -> (r: usize)
    ensures
        r == (if channels == 0 {
            0
        } else {
            (sample_count as int) / (channels as int)
        }),
{
    if channels == 0 {
        0
    } else {
        sample_count / (channels as usize)
    }
}

/// `n` cut to the range of `u128`.
pub open spec fn saturated_u128(n: int) -> u128 {
    if n > u128::MAX {
        u128::MAX
    } else {
        n as u128
    }
}

/// The length in milliseconds of `frames` frames at `sample_rate`,
/// rounded down; zero without a sample rate.
pub open spec fn duration_ms_spec(frames: int, sample_rate: u32) -> u128 {
    if sample_rate == 0 {
        0
    } else {
        (saturated_u128(frames * 1000) / (sample_rate as u128)) as u128
    }
}

/// The length in milliseconds of `frames` frames at `sample_rate`: the
/// frame count times 1000, saturating, divided by the rate.
pub fn duration_ms(frames: usize, sample_rate: u32) -> (r: u128)
    ensures
        r == duration_ms_spec(frames as int, sample_rate),
{
    if sample_rate == 0 {
        0
    } else {
        let scaled: u128 = match (frames as u128).checked_mul(1000) {
            Some(v) => v,
            None => u128::MAX,
        };
        scaled / (sample_rate as u128)
    }
}

/// A stream instant's nanoseconds, cut to `u64`.
pub fn stream_instant_nanos_u64(nanos: u128) -> (r: u64)
    ensures
        r == (if nanos > u64::MAX {
            u64::MAX
        } else {
            nanos as u64
        }),
{
    if nanos > u64::MAX as u128 {
        u64::MAX
    } else {
        nanos as u64
    }
}

/// Milliseconds cut to `u64`.
pub fn millis_u64(value: u128) -> (r: u64)
    ensures
        r == (if value > u64::MAX {
            u64::MAX
        } else {
            value as u64
        }),
{
    stream_instant_nanos_u64(value)
}

/// The first-callback latency, where one was recorded.
pub fn first_callback_latency(stored: u64) -> (r: Option<u128>)
    ensures
        r == (if stored == NO_FIRST_CALLBACK_LATENCY {
            None::<u128>
        } else {
            Some(stored as u128)
        }),
{
    if stored != NO_FIRST_CALLBACK_LATENCY {
        Some(stored as u128)
    } else {
        None
    }
}

/// What an audio callback's buffer is taken for.
#[derive(Debug, Clone, Copy, PartialEq, Eq, Structural)]
pub enum CallbackDisposition {
    /// No session is active: the samples are ignored.
    Inactive,
    /// Captured before the session began: counted as stale and dropped.
    Stale,
    /// Pushed into the ring buffer.
    Accepted,
}

/// Counters that the capture callback keeps for one session.
#[derive(Debug, Clone, Copy, PartialEq, Eq, Structural)]
pub struct AudioCallbackCounters {
    pub callback_count: u64,
    pub dropped_samples: u64,
    pub missed_chunks: u64,
    pub stale_callback_count: u64,
    pub stale_samples: u64,
    pub first_callback_latency_ms: u64,
}

/// `a + b` modulo 2^64, as the atomic counters add.
pub open spec fn wrap_add(a: u64, b: u64) -> u64 {
    (if a + b > u64::MAX {
        a + b - (u64::MAX + 1)
    } else {
        a + b
    }) as u64
}

/// Adds modulo 2^64, as an atomic `fetch_add` does.
pub fn add_wrapping(a: u64, b: u64) -> (r: u64)
    ensures
        r == wrap_add(a, b),
{
    match a.checked_add(b) {
        Some(v) => v,
        None => {
            let gap: u64 = u64::MAX - a;
            b - gap - 1
        },
    }
}

impl AudioCallbackCounters {
    /// Counters of a session that has not seen a callback.
    pub fn new() -> (c: Self)
        ensures
            c.callback_count == 0,
            c.dropped_samples == 0,
            c.missed_chunks == 0,
            c.stale_callback_count == 0,
            c.stale_samples == 0,
            c.first_callback_latency_ms == NO_FIRST_CALLBACK_LATENCY,
    {
        AudioCallbackCounters {
            callback_count: 0,
            dropped_samples: 0,
            missed_chunks: 0,
            stale_callback_count: 0,
            stale_samples: 0,
            first_callback_latency_ms: NO_FIRST_CALLBACK_LATENCY,
        }
    }

    /// Records one callback. While no session is active it changes
    /// nothing. A buffer captured before the session floor counts as stale.
    /// Else the callback is counted, its latency from the session start is
    /// kept if it is the first, and the samples that did not fit in the
    /// ring buffer (`sample_count - accepted`) are counted as dropped, with
    /// one missed chunk where any was dropped.
    pub fn record_callback(
        &mut self,
        active: bool,
        capture_nanos: u64,
        floor_nanos: u64,
        callback_nanos: u64,
        start_nanos: u64,
        sample_count: u64,
        accepted: u64,
    ) -> (d: CallbackDisposition)
        requires
            accepted <= sample_count,
        ensures
            d == (if !active {
                CallbackDisposition::Inactive
            } else if capture_nanos < floor_nanos {
                CallbackDisposition::Stale
            } else {
                CallbackDisposition::Accepted
            }),
            d == CallbackDisposition::Inactive ==> *final(self) == *old(self),
            d == CallbackDisposition::Stale ==> *final(self) == (AudioCallbackCounters {
                stale_callback_count: wrap_add(old(self).stale_callback_count, 1),
                stale_samples: wrap_add(old(self).stale_samples, sample_count),
                ..*old(self)
            }),
            d == CallbackDisposition::Accepted ==> {
                let dropped = (sample_count - accepted) as u64;
                &&& final(self).callback_count == wrap_add(old(self).callback_count, 1)
                &&& final(self).first_callback_latency_ms == (if old(
                    self,
                ).first_callback_latency_ms == NO_FIRST_CALLBACK_LATENCY {
                    (if callback_nanos < start_nanos {
                        0
                    } else {
                        callback_nanos - start_nanos
                    }) as u64 / 1_000_000
                } else {
                    old(self).first_callback_latency_ms
                })
                &&& final(self).dropped_samples == (if dropped > 0 {
                    wrap_add(old(self).dropped_samples, dropped)
                } else {
                    old(self).dropped_samples
                })
                &&& final(self).missed_chunks == (if dropped > 0 {
                    wrap_add(old(self).missed_chunks, 1)
                } else {
                    old(self).missed_chunks
                })
                &&& final(self).stale_callback_count == old(self).stale_callback_count
                &&& final(self).stale_samples == old(self).stale_samples
            },
    {
        if !active {
            return CallbackDisposition::Inactive;
        }
        if capture_nanos < floor_nanos {
            self.stale_callback_count = add_wrapping(self.stale_callback_count, 1);
            self.stale_samples = add_wrapping(self.stale_samples, sample_count);
            return CallbackDisposition::Stale;
        }
        self.callback_count = add_wrapping(self.callback_count, 1);
        if self.first_callback_latency_ms == NO_FIRST_CALLBACK_LATENCY {
            let latency_nanos = callback_nanos.saturating_sub(start_nanos);
            self.first_callback_latency_ms = latency_nanos / 1_000_000;
        }
        let dropped = sample_count - accepted;
        if dropped > 0 {
            self.dropped_samples = add_wrapping(self.dropped_samples, dropped);
            self.missed_chunks = add_wrapping(self.missed_chunks, 1);
        }
        CallbackDisposition::Accepted
    }
}

/// Moves `incoming` samples into `samples` while it holds fewer than
/// `max_samples`, and returns how many had no room.
pub fn collect_capped<S: Copy>(samples: &mut Vec<S>, incoming: &[S], max_samples: usize) -> (dropped: u64)
    ensures
        final(samples)@ == old(samples)@ + incoming@.take(
            if old(samples).len() >= max_samples {
                0
            } else if old(samples).len() + incoming.len() <= max_samples {
                incoming.len() as int
            } else {
                max_samples - old(samples).len()
            },
        ),
        dropped == incoming.len() - (final(samples).len() - old(samples).len()),
{
    let mut dropped: u64 = 0;
    let mut i: usize = 0;
    let ghost start = old(samples)@;
    let ghost kept: int = if old(samples).len() >= max_samples {
        0
    } else if old(samples).len() + incoming.len() <= max_samples {
        incoming.len() as int
    } else {
        max_samples - old(samples).len()
    };
    while i < incoming.len()
        invariant
            i <= incoming.len(),
            0 <= kept <= incoming.len(),
            start == old(samples)@,
            kept == (if start.len() >= max_samples {
                0
            } else if start.len() + incoming.len() <= max_samples {
                incoming.len() as int
            } else {
                max_samples - start.len()
            }),
            samples@ == start + incoming@.take(if i <= kept {
                i as int
            } else {
                kept
            }),
            dropped == i - (if i <= kept {
                i as int
            } else {
                kept
            }),
        decreases incoming.len() - i,
    {
        if samples.len() < max_samples {
            samples.push(incoming[i]);
            assert(incoming@.take(i + 1) =~= incoming@.take(i as int).push(incoming@[i as int]));
        } else {
            dropped = dropped + 1;
        }
        i = i + 1;
    }
    dropped
}

/// Why a capture was not transcribed.
#[derive(Debug, Clone, Copy, PartialEq, Eq, Structural)]
pub enum TranscriptionSkipReason {
    CaptureTooShort,
    PreparedAudioTooShort,
    NearSilent,
}

impl TranscriptionSkipReason {
    /// A sentence that says why the capture was skipped.
    pub fn label(self) -> (s: &'static str)
        ensures
            s@ == (match self {
                TranscriptionSkipReason::CaptureTooShort =>
                    "captured audio is shorter than the minimum transcription duration"@,
                TranscriptionSkipReason::PreparedAudioTooShort =>
                    "prepared whisper audio is shorter than the minimum transcription duration"@,
                TranscriptionSkipReason::NearSilent => "captured audio is near silent"@,
            }),
    {
        match self {
            TranscriptionSkipReason::CaptureTooShort => {
                "captured audio is shorter than the minimum transcription duration"
            },
            TranscriptionSkipReason::PreparedAudioTooShort => {
                "prepared whisper audio is shorter than the minimum transcription duration"
            },
            TranscriptionSkipReason::NearSilent => "captured audio is near silent",
        }
    }
}

/// Whether a capture is transcribed: a capture or prepared audio under the
/// minimum duration is skipped, checked in that order, then near silence.
pub fn skip_transcription_reason(capture_duration_ms: u128, prepared_duration_ms: u128, near_silent: bool) -> (r: Option<TranscriptionSkipReason>)
    ensures
        r == (if capture_duration_ms < MIN_TRANSCRIBE_CAPTURE_MS {
            Some(TranscriptionSkipReason::CaptureTooShort)
        } else if prepared_duration_ms < MIN_TRANSCRIBE_CAPTURE_MS {
            Some(TranscriptionSkipReason::PreparedAudioTooShort)
        } else if near_silent {
            Some(TranscriptionSkipReason::NearSilent)
        } else {
            None
        }),
{
    if capture_duration_ms < MIN_TRANSCRIBE_CAPTURE_MS {
        return Some(TranscriptionSkipReason::CaptureTooShort);
    }
    if prepared_duration_ms < MIN_TRANSCRIBE_CAPTURE_MS {
        return Some(TranscriptionSkipReason::PreparedAudioTooShort);
    }
    if near_silent {
        return Some(TranscriptionSkipReason::NearSilent);
    }
    None
}

/// Pads whisper audio with `silence` to one second at `sample_rate`;
/// audio that is long enough is left as it is.
pub fn pad_short_whisper_audio<S: Copy>(samples: &mut Vec<S>, sample_rate: u32, silence: S)
    ensures
        old(samples).len() >= sample_rate ==> final(samples)@ == old(samples)@,
        old(samples).len() < sample_rate ==> final(samples)@ == old(samples)@ + Seq::new(
            (sample_rate - old(samples).len()) as nat,
            |i: int| silence,
        ),
{
    let minimum = sample_rate as usize;
    if samples.len() >= minimum {
        return;
    }
    let ghost start = samples@;
    while samples.len() < minimum
        invariant
            start.len() < minimum,
            minimum == sample_rate,
            start.len() <= samples.len() <= minimum,
            samples@ == start + Seq::new((samples.len() - start.len()) as nat, |i: int| silence),
        decreases minimum - samples.len(),
    {
        samples.push(silence);
        assert(samples@ =~= start + Seq::new((samples.len() - start.len()) as nat, |i: int| silence));
    }
}

/// A file-name piece made of ASCII letters, digits, `-` and `_`: other
/// characters become `_`, and an empty text becomes `shortcut`.
pub open spec fn sanitized_component(s: Seq<char>) -> Seq<char> {
    if s.len() == 0 {
        "shortcut"@
    } else {
        Seq::new(s.len(), |i: int| if safe_file_char(s[i]) { s[i] } else { '_' })
    }
}

/// ASCII letters and digits, `-` and `_`.
pub open spec fn safe_file_char(c: char) -> bool {
    ('a' <= c <= 'z') || ('A' <= c <= 'Z') || ('0' <= c <= '9') || c == '-' || c == '_'
}

/// The shortcut id made safe for a debug file name.
pub fn sanitize_file_component(value: &str) -> (r: String)
    ensures
        r@ == sanitized_component(value@),
{
    let v = chars_of(value);
    if v.len() == 0 {
        return string_from_chars(chars_of("shortcut").as_slice());
    }
    let mut out: Vec<char> = Vec::new();
    let mut i: usize = 0;
    while i < v.len()
        invariant
            i <= v.len(),
            v@ == value@,
            out@ == Seq::new(i as nat, |k: int| if safe_file_char(v@[k]) { v@[k] } else { '_' }),
        decreases v.len() - i,
    {
        let c = v[i];
        let safe = ('a' <= c && c <= 'z') || ('A' <= c && c <= 'Z') || ('0' <= c && c <= '9') || c
            == '-' || c == '_';
        if safe {
            out.push(c);
        } else {
            out.push('_');
        }
        i = i + 1;
        assert(out@ =~= Seq::new(i as nat, |k: int| if safe_file_char(v@[k]) { v@[k] } else { '_' }));
    }
    string_from_chars(out.as_slice())
}

/// Where debug audio is written.
#[derive(Debug, Clone, PartialEq, Eq)]
pub enum DebugAudioDir {
    /// Debug audio is not written.
    Disabled,
    /// The default directory under the system's temporary directory.
    TempDefault,
    /// The directory the setting names.
    Path(String),
}

/// A setting value that switches debug audio off.
pub open spec fn setting_disables(v: Seq<char>) -> bool {
    v.len() == 0 || crate::clipboard::eq_ignore_ascii_case(v, "0"@)
        || crate::clipboard::eq_ignore_ascii_case(v, "false"@)
        || crate::clipboard::eq_ignore_ascii_case(v, "off"@)
        || crate::clipboard::eq_ignore_ascii_case(v, "no"@)
}

/// A setting value that switches debug audio on in the default directory.
pub open spec fn setting_enables(v: Seq<char>) -> bool {
    crate::clipboard::eq_ignore_ascii_case(v, "1"@) || crate::clipboard::eq_ignore_ascii_case(
        v,
        "true"@,
    ) || crate::clipboard::eq_ignore_ascii_case(v, "on"@)
        || crate::clipboard::eq_ignore_ascii_case(v, "yes"@)
}

/// The debug-audio setting read as a switch or a directory: unset or empty
/// disables it, `0`/`false`/`off`/`no` in any ASCII case disable it,
/// `1`/`true`/`on`/`yes` choose the default directory, anything else is a
/// directory path.
pub fn debug_audio_setting(value: Option<&str>) -> (r: DebugAudioDir)
    ensures
        match value {
            None => r == DebugAudioDir::Disabled,
            Some(v) => if setting_disables(v@) {
                r == DebugAudioDir::Disabled
            } else if setting_enables(v@) {
                r == DebugAudioDir::TempDefault
            } else {
                r matches DebugAudioDir::Path(p) && p@ == v@
            },
        },
{
    match value {
        None => DebugAudioDir::Disabled,
        Some(v) => {
            let t = chars_of(v);
            if t.len() == 0 {
                return DebugAudioDir::Disabled;
            }
            let s = t.as_slice();
            if crate::clipboard::equal_ignore_ascii_case(s, chars_of("0").as_slice())
                || crate::clipboard::equal_ignore_ascii_case(s, chars_of("false").as_slice())
                || crate::clipboard::equal_ignore_ascii_case(s, chars_of("off").as_slice())
                || crate::clipboard::equal_ignore_ascii_case(s, chars_of("no").as_slice()) {
                DebugAudioDir::Disabled
            } else if crate::clipboard::equal_ignore_ascii_case(s, chars_of("1").as_slice())
                || crate::clipboard::equal_ignore_ascii_case(s, chars_of("true").as_slice())
                || crate::clipboard::equal_ignore_ascii_case(s, chars_of("on").as_slice())
                || crate::clipboard::equal_ignore_ascii_case(s, chars_of("yes").as_slice()) {
                DebugAudioDir::TempDefault
            } else {
                DebugAudioDir::Path(string_from_chars(s))
            }
        },
    }
}

} // verus!
