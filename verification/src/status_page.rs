//! What the settings window's status page lists about the speech engine:
//! its runtime state and the feature flags the engine reports.
use vstd::prelude::*;

use crate::text::{chars_equal, chars_of, slice_chars, split_chars, split_on, string_from_chars, trim, trim_chars};
use crate::whisper::{compute_name, WhisperRuntimeState, WhisperRuntimeStatus};

verus! {

broadcast use vstd::string::group_string_axioms;

/// How the GPU is used by a loaded model.
pub open spec fn gpu_usage_text(effective_compute: Seq<char>, gpu_requested: bool) -> Seq<char> {
    if gpu_requested {
        "Active via "@ + effective_compute
    } else if effective_compute == "auto-cpu-fallback"@ {
        "CPU fallback after auto GPU initialization failed"@
    } else {
        "CPU"@
    }
}

/// The (title, value) rows of the engine status: the runtime state first,
/// then the configured and compiled backends, then what the state tells.
pub open spec fn status_rows(s: WhisperRuntimeStatus) -> Seq<(Seq<char>, Seq<char>)> {
    let common = seq![
        ("Configured compute"@, compute_name(s.configured_compute)),
        ("Compiled backends"@, s.compiled_backends@),
    ];
    match s.state {
        WhisperRuntimeState::NotLoaded => seq![("Runtime state"@, "No model loaded yet"@)] + common
            + seq![
            ("Active model"@, "None"@),
            ("Effective compute"@, "Unknown until the first transcription loads a model"@),
            ("GPU usage"@, "Not active"@),
        ],
        WhisperRuntimeState::Loaded { model_id, effective_compute, gpu_requested } => seq![
            ("Runtime state"@, "Loaded"@),
        ] + common + seq![
            ("Active model"@, model_id@),
            ("Effective compute"@, effective_compute@),
            ("GPU usage"@, gpu_usage_text(effective_compute@, gpu_requested)),
        ],
        WhisperRuntimeState::Failed { error } => seq![("Runtime state"@, "Failed"@)] + common
            + seq![
            ("Active model"@, "None"@),
            ("Effective compute"@, "Unavailable"@),
            ("GPU usage"@, "Unavailable"@),
            ("Last error"@, error@),
        ],
    }
}

/// The rows as character sequences.
pub open spec fn row_views(rows: Seq<(String, String)>) -> Seq<(Seq<char>, Seq<char>)> {
    rows.map_values(|r: (String, String)| (r.0@, r.1@))
}

fn owned(s: &str) -> (r: String)
    ensures
        r@ == s@,
{
    string_from_chars(chars_of(s).as_slice())
}

fn push_row(rows: &mut Vec<(String, String)>, title: &str, value: String)
    ensures
        row_views(final(rows)@) == row_views(old(rows)@).push((title@, value@)),
{
    let ghost before = row_views(rows@);
    rows.push((owned(title), value));
    assert(row_views(rows@) =~= before.push((title@, value@)));
}

/// The status page rows for the engine's status.
pub fn whisper_status_rows(status: &WhisperRuntimeStatus) -> (rows: Vec<(String, String)>)
    ensures
        row_views(rows@) == status_rows(*status),
{
    let mut rows: Vec<(String, String)> = Vec::new();
    match &status.state {
        WhisperRuntimeState::NotLoaded => push_row(&mut rows, "Runtime state", owned("No model loaded yet")),
        WhisperRuntimeState::Loaded { .. } => push_row(&mut rows, "Runtime state", owned("Loaded")),
        WhisperRuntimeState::Failed { .. } => push_row(&mut rows, "Runtime state", owned("Failed")),
    }
    push_row(&mut rows, "Configured compute", owned(status.configured_compute.as_str()));
    push_row(&mut rows, "Compiled backends", owned(status.compiled_backends.as_str()));
    match &status.state {
        WhisperRuntimeState::NotLoaded => {
            push_row(&mut rows, "Active model", owned("None"));
            push_row(
                &mut rows,
                "Effective compute",
                owned("Unknown until the first transcription loads a model"),
            );
            push_row(&mut rows, "GPU usage", owned("Not active"));
        },
        WhisperRuntimeState::Loaded { model_id, effective_compute, gpu_requested } => {
            push_row(&mut rows, "Active model", owned(model_id.as_str()));
            push_row(&mut rows, "Effective compute", owned(effective_compute.as_str()));
            let usage = if *gpu_requested {
                let mut v = chars_of("Active via ");
                let mut e = chars_of(effective_compute.as_str());
                v.append(&mut e);
                string_from_chars(v.as_slice())
            } else if chars_equal(
                chars_of(effective_compute.as_str()).as_slice(),
                chars_of("auto-cpu-fallback").as_slice(),
            ) {
                owned("CPU fallback after auto GPU initialization failed")
            } else {
                owned("CPU")
            };
            push_row(&mut rows, "GPU usage", usage);
        },
        WhisperRuntimeState::Failed { error } => {
            push_row(&mut rows, "Active model", owned("None"));
            push_row(&mut rows, "Effective compute", owned("Unavailable"));
            push_row(&mut rows, "GPU usage", owned("Unavailable"));
            push_row(&mut rows, "Last error", owned(error.as_str()));
        },
    }
    assert(row_views(rows@) =~= status_rows(*status));
    rows
}

/// How a feature flag's value is shown: `1` as `yes`, `0` as `no`, any
/// other value as it is.
pub open spec fn feature_value_text(value: Seq<char>) -> Seq<char> {
    if value == "1"@ {
        "yes"@
    } else if value == "0"@ {
        "no"@
    } else {
        value
    }
}

/// Whether `i` is the first position of `c` in `s`.
pub open spec fn first_at(s: Seq<char>, c: char, i: int) -> bool {
    0 <= i < s.len() && s[i] == c && forall|k: int| 0 <= k < i ==> s[k] != c
}

/// One `key = value` part of the engine's report: the trimmed key and the
/// shown value, split at the first `=`; none without `=` or with an empty
/// key.
pub open spec fn feature_of(part: Seq<char>) -> Option<(Seq<char>, Seq<char>)> {
    let p = trim(part);
    if exists|i: int| first_at(p, '=', i) {
        let i = choose|i: int| first_at(p, '=', i);
        let key = trim(p.subrange(0, i));
        let value = trim(p.subrange(i + 1, p.len() as int));
        if key.len() == 0 {
            None
        } else {
            Some((key, feature_value_text(value)))
        }
    } else {
        None
    }
}

/// The features of the parts, in order.
pub open spec fn features(parts: Seq<Seq<char>>) -> Seq<(Seq<char>, Seq<char>)>
    decreases parts.len(),
{
    if parts.len() == 0 {
        seq![]
    } else {
        let prev = features(parts.drop_last());
        match feature_of(parts.last()) {
            Some(f) => prev.push(f),
            None => prev,
        }
    }
}

/// The feature rows of the engine's `|`-separated report; the whole report
/// as one `System info` row when no part is a feature.
pub open spec fn feature_rows(info: Seq<char>) -> Seq<(Seq<char>, Seq<char>)> {
    let f = features(split_on(info, '|'));
    if f.len() == 0 {
        seq![("System info"@, info)]
    } else {
        f
    }
}

/// The shown value of a feature flag.
pub fn feature_value(value: &[char]) -> (r: Vec<char>)
    ensures
        r@ == feature_value_text(value@),
{
    let one = chars_of("1");
    let zero = chars_of("0");
    if chars_equal(value, one.as_slice()) {
        chars_of("yes")
    } else if chars_equal(value, zero.as_slice()) {
        chars_of("no")
    } else {
        slice_chars(value, 0, value.len())
    }
}

fn feature_of_part(part: &[char]) -> (r: Option<(String, String)>)
    ensures
        match feature_of(part@) {
            None => r is None,
            Some(f) => r matches Some(x) && x.0@ == f.0 && x.1@ == f.1,
        },
{
    let p = trim_chars(part);
    let mut i: usize = 0;
    while i < p.len() && p[i] != '='
        invariant
            i <= p@.len(),
            forall|k: int| 0 <= k < i ==> p@[k] != '=',
        decreases p@.len() - i,
    {
        i = i + 1;
    }
    if i == p.len() {
        assert(!exists|j: int| first_at(p@, '=', j));
        return None;
    }
    assert(first_at(p@, '=', i as int));
    let ghost j = choose|j: int| first_at(p@, '=', j);
    assert(j == i) by {
        if j < i {
            assert(p@[j] != '=');
        } else if i < j {
            assert(p@[i as int] != '=');
        }
    }
    let key = trim_chars(slice_chars(p.as_slice(), 0, i).as_slice());
    if key.len() == 0 {
        return None;
    }
    let value = trim_chars(slice_chars(p.as_slice(), i + 1, p.len()).as_slice());
    let shown = feature_value(value.as_slice());
    Some((string_from_chars(key.as_slice()), string_from_chars(shown.as_slice())))
}

/// The feature rows of the engine's system information.
pub fn whisper_feature_rows(system_info: &str) -> (rows: Vec<(String, String)>)
    ensures
        row_views(rows@) == feature_rows(system_info@),
{
    let info = chars_of(system_info);
    let parts = split_chars(info.as_slice(), '|');
    let ghost pv = parts@.map_values(|p: Vec<char>| p@);
    let mut rows: Vec<(String, String)> = Vec::new();
    let mut i: usize = 0;
    while i < parts.len()
        invariant
            i <= parts@.len(),
            pv == parts@.map_values(|p: Vec<char>| p@),
            row_views(rows@) == features(pv.subrange(0, i as int)),
        decreases parts@.len() - i,
    {
        let ghost before = row_views(rows@);
        assert(pv.subrange(0, i + 1).drop_last() =~= pv.subrange(0, i as int));
        assert(pv[i as int] == parts@[i as int]@);
        match feature_of_part(parts[i].as_slice()) {
            Some(f) => {
                rows.push(f);
                assert(row_views(rows@) =~= before.push((f.0@, f.1@)));
            },
            None => {},
        }
        i = i + 1;
    }
    assert(pv.subrange(0, i as int) =~= pv);
    if rows.len() == 0 {
        let mut only: Vec<(String, String)> = Vec::new();
        push_row(&mut only, "System info", owned(system_info));
        assert(row_views(only@) =~= seq![("System info"@, system_info@)]);
        return only;
    }
    rows
}

} // verus!
