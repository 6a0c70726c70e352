//! The whisper engine's settings: compute backends, the language passed to
//! the model, the thread count and the runtime status shown in settings.
use vstd::prelude::*;

use crate::audio::TranscriptionSkipReason;
use crate::text::{chars_of, join_strings, joined, push_str, string_from_chars, trim, trim_chars};

verus! {

broadcast use vstd::string::group_string_axioms;

/// The compute backend a configuration asks for.
#[derive(Debug, Clone, Copy, PartialEq, Eq, Structural)]
pub enum ComputeBackend {
    Auto,
    Cpu,
    Vulkan,
    Cuda,
    Rocm,
}

/// The configuration name of a compute backend.
pub open spec fn compute_name(b: ComputeBackend) -> Seq<char> {
    match b {
        ComputeBackend::Auto => "auto"@,
        ComputeBackend::Cpu => "cpu"@,
        ComputeBackend::Vulkan => "vulkan"@,
        ComputeBackend::Cuda => "cuda"@,
        ComputeBackend::Rocm => "rocm"@,
    }
}

impl ComputeBackend {
    /// The configuration name of this backend.
    pub fn as_str(self) -> (s: &'static str)
        ensures
            s@ == compute_name(self),
    {
        match self {
            ComputeBackend::Auto => "auto",
            ComputeBackend::Cpu => "cpu",
            ComputeBackend::Vulkan => "vulkan",
            ComputeBackend::Cuda => "cuda",
            ComputeBackend::Rocm => "rocm",
        }
    }
}

/// The GPU backends built into the engine.
#[derive(Debug, Clone, Copy, PartialEq, Eq, Structural)]
pub struct CompiledWhisperBackends {
    pub cuda: bool,
    pub rocm: bool,
    pub vulkan: bool,
}

/// The list of built backends, CPU first, then Vulkan, CUDA and ROCm.
pub open spec fn backends_label(b: CompiledWhisperBackends) -> Seq<char> {
    "cpu"@ + (if b.vulkan {
        ",vulkan"@
    } else {
        Seq::empty()
    }) + (if b.cuda {
        ",cuda"@
    } else {
        Seq::empty()
    }) + (if b.rocm {
        ",rocm"@
    } else {
        Seq::empty()
    })
}

impl CompiledWhisperBackends {
    /// The backends of this build. This library builds the engine without
    /// GPU support.
    pub fn current() -> (b: Self)
        ensures
            !b.cuda && !b.rocm && !b.vulkan,
    {
        CompiledWhisperBackends { cuda: false, rocm: false, vulkan: false }
    }

    /// Whether any GPU backend is built.
    pub fn has_gpu(self) -> (b: bool)
        ensures
            b == (self.cuda || self.rocm || self.vulkan),
    {
        self.cuda || self.rocm || self.vulkan
    }

    /// The built backends, comma-separated.
    pub fn display_label(self) -> (s: String)
        ensures
            s@ == backends_label(self),
    {
        let mut out: Vec<char> = Vec::new();
        push_str(&mut out, "cpu");
        if self.vulkan {
            push_str(&mut out, ",vulkan");
        }
        if self.cuda {
            push_str(&mut out, ",cuda");
        }
        if self.rocm {
            push_str(&mut out, ",rocm");
        }
        assert(out@ =~= backends_label(self));
        string_from_chars(out.as_slice())
    }
}

/// The message of a GPU backend that this build lacks.
pub open spec fn backend_not_built_message(b: ComputeBackend) -> Seq<char> {
    "whisper compute backend "@ + compute_name(b) + " is not enabled in this build"@
}

/// Whether the engine runs the model on a GPU for a configured backend, or
/// why it cannot run it.
pub open spec fn gpu_choice(b: ComputeBackend, compiled: CompiledWhisperBackends) -> Result<bool, Seq<char>> {
    match b {
        ComputeBackend::Auto => Ok(compiled.cuda || compiled.rocm || compiled.vulkan),
        ComputeBackend::Cpu => Ok(false),
        ComputeBackend::Vulkan => if compiled.vulkan {
            Ok(true)
        } else {
            Err(backend_not_built_message(b))
        },
        ComputeBackend::Cuda => if compiled.cuda {
            Ok(true)
        } else {
            Err(backend_not_built_message(b))
        },
        ComputeBackend::Rocm => if compiled.rocm {
            Ok(true)
        } else {
            Err(backend_not_built_message(b))
        },
    }
}

/// Chooses GPU or CPU for the model context: `Auto` uses a GPU when one is
/// built, `Cpu` never does, and an explicit GPU backend that is not built
/// is refused.
pub fn context_uses_gpu(compute_backend: ComputeBackend, compiled: CompiledWhisperBackends) -> (r: Result<bool, String>)
    ensures
        gpu_choice(compute_backend, compiled) is Ok ==> r is Ok && r->Ok_0 == gpu_choice(
            compute_backend,
            compiled,
        )->Ok_0,
        gpu_choice(compute_backend, compiled) is Err ==> r is Err && r->Err_0@ == gpu_choice(
            compute_backend,
            compiled,
        )->Err_0,
{
    match compute_backend {
        ComputeBackend::Auto => {
            let g = compiled.has_gpu();
            assert(gpu_choice(compute_backend, compiled) == Ok::<bool, Seq<char>>(g));
            Ok(g)
        },
        ComputeBackend::Cpu => Ok(false),
        ComputeBackend::Vulkan | ComputeBackend::Cuda | ComputeBackend::Rocm => {
            let built = match compute_backend {
                ComputeBackend::Vulkan => compiled.vulkan,
                ComputeBackend::Cuda => compiled.cuda,
                _ => compiled.rocm,
            };
            if built {
                Ok(true)
            } else {
                let mut out: Vec<char> = Vec::new();
                push_str(&mut out, "whisper compute backend ");
                push_str(&mut out, compute_backend.as_str());
                push_str(&mut out, " is not enabled in this build");
                Err(string_from_chars(out.as_slice()))
            }
        },
    }
}

/// Each explicitly chosen GPU backend runs the model on the GPU exactly
/// when that same backend is built, and is refused otherwise; `Cpu` never
/// uses a GPU and `Auto` uses one exactly when any GPU backend is built.
pub proof fn lemma_gpu_backend_needs_its_build(compiled: CompiledWhisperBackends)
    ensures
        (gpu_choice(ComputeBackend::Vulkan, compiled) == Ok::<bool, Seq<char>>(true)) == compiled.vulkan,
        !compiled.vulkan ==> gpu_choice(ComputeBackend::Vulkan, compiled) is Err,
        (gpu_choice(ComputeBackend::Cuda, compiled) == Ok::<bool, Seq<char>>(true)) == compiled.cuda,
        !compiled.cuda ==> gpu_choice(ComputeBackend::Cuda, compiled) is Err,
        (gpu_choice(ComputeBackend::Rocm, compiled) == Ok::<bool, Seq<char>>(true)) == compiled.rocm,
        !compiled.rocm ==> gpu_choice(ComputeBackend::Rocm, compiled) is Err,
        gpu_choice(ComputeBackend::Cpu, compiled) == Ok::<bool, Seq<char>>(false),
        gpu_choice(ComputeBackend::Auto, compiled) == Ok::<bool, Seq<char>>(
            compiled.vulkan || compiled.cuda || compiled.rocm,
        ),
{
}

/// The language value that asks whisper to detect the language.
pub const AUTO_LANGUAGE_VALUE: &'static str = "auto";

/// The language given to whisper: none for automatic detection.
pub fn whisper_language(language: &str) -> (r: Option<&str>)
    ensures
        language@ == "auto"@ ==> r is None,
        language@ != "auto"@ ==> r == Some(language),
{
    proof {
        reveal_strlit("auto");
    }
    let l = chars_of(language);
    let a = chars_of("auto");
    if crate::text::chars_equal(l.as_slice(), a.as_slice()) {
        None
    } else {
        Some(language)
    }
}

/// The decoding thread count from the machine's parallelism, between 1
/// and 8, or 4 where it is unknown.
pub fn thread_count_for(available: Option<usize>) -> (n: i32)
    ensures
        n == (match available {
            Some(c) => if c < 1 {
                1
            } else if c > 8 {
                8
            } else {
                c as int
            },
            None => 4,
        }),
{
    match available {
        Some(c) => {
            if c < 1 {
                1
            } else if c > 8 {
                8
            } else {
                c as i32
            }
        },
        None => 4,
    }
}

/// What the engine has loaded.
#[derive(Debug, Clone, PartialEq, Eq)]
pub enum WhisperRuntimeState {
    NotLoaded,
    Loaded { model_id: String, effective_compute: String, gpu_requested: bool },
    Failed { error: String },
}

/// The engine's status as the settings page shows it.
#[derive(Debug, Clone, PartialEq, Eq)]
pub struct WhisperRuntimeStatus {
    pub configured_compute: ComputeBackend,
    pub compiled_backends: String,
    pub whisper_system_info: String,
    pub state: WhisperRuntimeState,
}

/// The first part of the summary: what is loaded and on what.
pub open spec fn state_summary(s: WhisperRuntimeState) -> Seq<char> {
    match s {
        WhisperRuntimeState::NotLoaded => "No model loaded yet"@,
        WhisperRuntimeState::Loaded { model_id, effective_compute, gpu_requested } => if gpu_requested {
            "GPU via "@ + effective_compute@ + "; model "@ + model_id@
        } else if effective_compute@ == "auto-cpu-fallback"@ {
            "CPU fallback after auto GPU failed; model "@ + model_id@
        } else {
            "CPU via "@ + effective_compute@ + "; model "@ + model_id@
        },
        WhisperRuntimeState::Failed { error } => "Failed: "@ + error@,
    }
}

impl WhisperRuntimeStatus {
    /// The status before a model is loaded. `whisper_system_info` is the
    /// engine's report of its CPU features.
    pub fn initial(configured_compute: ComputeBackend, whisper_system_info: String) -> (s: Self)
        ensures
            s.configured_compute == configured_compute,
            s.compiled_backends@ == backends_label(CompiledWhisperBackends::current_spec()),
            s.whisper_system_info == whisper_system_info,
            s.state == WhisperRuntimeState::NotLoaded,
    {
        WhisperRuntimeStatus {
            configured_compute,
            compiled_backends: CompiledWhisperBackends::current().display_label(),
            whisper_system_info,
            state: WhisperRuntimeState::NotLoaded,
        }
    }

    /// The status after a model was loaded.
    pub fn loaded(
        configured_compute: ComputeBackend,
        model_id: String,
        effective_compute: String,
        gpu_requested: bool,
        whisper_system_info: String,
    ) -> (s: Self)
        ensures
            s.configured_compute == configured_compute,
            s.compiled_backends@ == backends_label(CompiledWhisperBackends::current_spec()),
            s.whisper_system_info == whisper_system_info,
            s.state == (WhisperRuntimeState::Loaded { model_id, effective_compute, gpu_requested }),
    {
        WhisperRuntimeStatus {
            configured_compute,
            compiled_backends: CompiledWhisperBackends::current().display_label(),
            whisper_system_info,
            state: WhisperRuntimeState::Loaded { model_id, effective_compute, gpu_requested },
        }
    }

    /// The status after loading a model failed.
    pub fn failed(configured_compute: ComputeBackend, error: String, whisper_system_info: String) -> (s: Self)
        ensures
            s.configured_compute == configured_compute,
            s.compiled_backends@ == backends_label(CompiledWhisperBackends::current_spec()),
            s.whisper_system_info == whisper_system_info,
            s.state == (WhisperRuntimeState::Failed { error }),
    {
        WhisperRuntimeStatus {
            configured_compute,
            compiled_backends: CompiledWhisperBackends::current().display_label(),
            whisper_system_info,
            state: WhisperRuntimeState::Failed { error },
        }
    }

    /// One line for the settings page: the state, then the configured
    /// backend, the built backends and the engine's system information.
    pub fn summary(&self) -> (s: String)
        ensures
            s@ == state_summary(self.state) + "; configured "@ + compute_name(
                self.configured_compute,
            ) + "; compiled "@ + self.compiled_backends@ + "; Whisper "@
                + self.whisper_system_info@,
    {
        let mut out: Vec<char> = Vec::new();
        match &self.state {
            WhisperRuntimeState::NotLoaded => push_str(&mut out, "No model loaded yet"),
            WhisperRuntimeState::Loaded { model_id, effective_compute, gpu_requested } => {
                if *gpu_requested {
                    push_str(&mut out, "GPU via ");
                    push_str(&mut out, effective_compute.as_str());
                    push_str(&mut out, "; model ");
                    push_str(&mut out, model_id.as_str());
                } else {
                    let e = chars_of(effective_compute.as_str());
                    let f = chars_of("auto-cpu-fallback");
                    if crate::text::chars_equal(e.as_slice(), f.as_slice()) {
                        push_str(&mut out, "CPU fallback after auto GPU failed; model ");
                        push_str(&mut out, model_id.as_str());
                    } else {
                        push_str(&mut out, "CPU via ");
                        push_str(&mut out, effective_compute.as_str());
                        push_str(&mut out, "; model ");
                        push_str(&mut out, model_id.as_str());
                    }
                }
            },
            WhisperRuntimeState::Failed { error } => {
                push_str(&mut out, "Failed: ");
                push_str(&mut out, error.as_str());
            },
        }
        assert(out@ =~= state_summary(self.state));
        push_str(&mut out, "; configured ");
        push_str(&mut out, self.configured_compute.as_str());
        push_str(&mut out, "; compiled ");
        push_str(&mut out, self.compiled_backends.as_str());
        push_str(&mut out, "; Whisper ");
        push_str(&mut out, self.whisper_system_info.as_str());
        string_from_chars(out.as_slice())
    }
}

impl CompiledWhisperBackends {
    /// The backends of this build, as a value.
    pub open spec fn current_spec() -> Self {
        CompiledWhisperBackends { cuda: false, rocm: false, vulkan: false }
    }
}

/// The engine's system information as shown: trimmed, or `unavailable`
/// where the engine reported nothing.
pub fn system_info_text(reported: Option<&str>) -> (s: String)
    ensures
        match reported {
            Some(r) => if crate::text::trim(r@).len() == 0 {
                s@ == "unavailable"@
            } else {
                s@ == crate::text::trim(r@)
            },
            None => s@ == "unavailable"@,
        },
{
    match reported {
        None => string_from_chars(chars_of("unavailable").as_slice()),
        Some(r) => {
            let v = chars_of(r);
            let t = crate::text::trim_chars(v.as_slice());
            if t.len() == 0 {
                string_from_chars(chars_of("unavailable").as_slice())
            } else {
                string_from_chars(t.as_slice())
            }
        },
    }
}


/// A piece of recognized speech and its time span, in centiseconds.
#[derive(Debug, Clone, PartialEq, Eq)]
pub struct TranscriptionSegment {
    pub start_centiseconds: i64,
    pub end_centiseconds: i64,
    pub text: String,
}

/// Whether the engine ran on a capture, or skipped it and why.
#[derive(Debug, Clone, Copy, PartialEq, Eq, Structural)]
pub enum TranscriptionStatus {
    Completed,
    Skipped { reason: TranscriptionSkipReason },
}

/// The trimmed texts of the segments, leaving out those that are empty
/// once trimmed.
pub open spec fn spoken_parts(segments: Seq<TranscriptionSegment>) -> Seq<Seq<char>>
    decreases segments.len(),
{
    if segments.len() == 0 {
        seq![]
    } else {
        let prev = spoken_parts(segments.drop_last());
        let t = trim(segments.last().text@);
        if t.len() == 0 {
            prev
        } else {
            prev.push(t)
        }
    }
}

/// The recognized text: the trimmed segment texts that are not empty,
/// joined by single spaces.
pub fn recognized_text(segments: &Vec<TranscriptionSegment>) -> (s: String)
    ensures
        s@ == joined(spoken_parts(segments@), " "@),
{
    let mut parts: Vec<String> = Vec::new();
    let mut i: usize = 0;
    while i < segments.len()
        invariant
            i <= segments@.len(),
            parts@.map_values(|p: String| p@) == spoken_parts(segments@.subrange(0, i as int)),
        decreases segments@.len() - i,
    {
        let ghost before = parts@.map_values(|p: String| p@);
        assert(segments@.subrange(0, i + 1).drop_last() =~= segments@.subrange(0, i as int));
        let t = trim_chars(chars_of(segments[i].text.as_str()).as_slice());
        if t.len() > 0 {
            parts.push(string_from_chars(t.as_slice()));
            assert(parts@.map_values(|p: String| p@) =~= before.push(t@));
        }
        i = i + 1;
    }
    assert(segments@.subrange(0, i as int) =~= segments@);
    join_strings(&parts, " ")
}

/// The recognized text keeps every segment that says something: each
/// segment's trimmed text, in order, leaving out exactly the segments that
/// are blank once trimmed. In particular a single segment gives its own
/// trimmed text, and no segment that says something is dropped.
pub proof fn lemma_recognized_text_keeps_every_segment(segments: Seq<TranscriptionSegment>)
    ensures
        spoken_parts(segments) == segments.map_values(|s: TranscriptionSegment| trim(s.text@)).filter(
            |t: Seq<char>| t.len() > 0,
        ),
        forall|i: int|
            0 <= i < segments.len() && trim(#[trigger] segments[i].text@).len() > 0
                ==> spoken_parts(segments).contains(trim(segments[i].text@)),
        segments.len() == 1 ==> joined(spoken_parts(segments), " "@) == trim(segments[0].text@),
    decreases segments.len(),
{
    let f = |s: TranscriptionSegment| trim(s.text@);
    let p = |t: Seq<char>| t.len() > 0;
    if segments.len() > 0 {
        lemma_recognized_text_keeps_every_segment(segments.drop_last());
        assert(segments.map_values(f).drop_last() =~= segments.drop_last().map_values(f));
        assert(segments.map_values(f).last() == trim(segments.last().text@));
        let fs = segments.map_values(f);
        assert(fs.filter(p) == if p(fs.last()) {
            fs.drop_last().filter(p).push(fs.last())
        } else {
            fs.drop_last().filter(p)
        }) by {
            reveal_with_fuel(Seq::filter, 1);
        }
        assert forall|i: int|
            0 <= i < segments.len() && trim(#[trigger] segments[i].text@).len() > 0
                implies spoken_parts(segments).contains(trim(segments[i].text@)) by {
            let t = trim(segments[i].text@);
            if i < segments.len() - 1 {
                assert(segments.drop_last()[i] == segments[i]);
                let prev = spoken_parts(segments.drop_last());
                assert(prev.contains(t));
                let j = choose|j: int| 0 <= j < prev.len() && prev[j] == t;
                assert(spoken_parts(segments)[j] == t);
            } else {
                assert(spoken_parts(segments).last() == t);
            }
        }
        if segments.len() == 1 {
            assert(segments.drop_last().len() == 0);
            let t = trim(segments[0].text@);
            if t.len() > 0 {
                assert(spoken_parts(segments) =~= seq![t]);
            } else {
                assert(spoken_parts(segments).len() == 0);
                assert(t =~= Seq::<char>::empty());
            }
        }
    } else {
        assert(segments.map_values(f) =~= Seq::<Seq<char>>::empty());
        assert(Seq::<Seq<char>>::empty().filter(p) =~= Seq::<Seq<char>>::empty()) by {
            reveal_with_fuel(Seq::filter, 1);
        }
    }
}

} // verus!
