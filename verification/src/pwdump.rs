//! Playback streams found in `pw-dump` output, for muting one stream at a
//! time rather than the whole sink.
use serde_json::Value;
use vstd::prelude::*;

use crate::mute::{SpeakerMuteBackend, SpeakerMuteTarget, SpeakerMuteTargetKind, TargetView};
use crate::text::{chars_equal, chars_of, push_decimal, push_str, string_from_chars, trim, trim_chars};

verus! {

#[verifier::external_type_specification]
#[verifier::external_body]
pub struct ExJsonValue(serde_json::Value);

/// What a `serde_json::Value` holds, as its compact JSON text (what the
/// value's `Display` writes); two values with the same text are the same.
pub uninterp spec fn json_text(v: Value) -> Seq<char>;

/// The items of a JSON array text, each as its compact JSON text, or `None`
/// when the text is not a JSON array (`serde_json::from_str::<Vec<Value>>`).
pub uninterp spec fn json_array_items(text: Seq<char>) -> Option<Seq<Seq<char>>>;

/// The member under `key` of the JSON value with text `value`, or `None`
/// for a missing key or a value that is not an object (`Value::get`).
pub uninterp spec fn json_member(value: Seq<char>, key: Seq<char>) -> Option<Seq<char>>;

/// The value at a JSON pointer such as `/info/props` inside the JSON value
/// with text `value`, if there is one (`Value::pointer`).
pub uninterp spec fn json_at_pointer(value: Seq<char>, pointer: Seq<char>) -> Option<Seq<char>>;

/// The characters of the JSON value with text `value` where it is a string
/// (`Value::as_str`).
pub uninterp spec fn json_string(value: Seq<char>) -> Option<Seq<char>>;

/// The number of the JSON value with text `value` where it is an unsigned
/// integer that fits `u64` (`Value::as_u64`).
pub uninterp spec fn json_unsigned(value: Seq<char>) -> Option<u64>;

/// `serde_json::from_str::<Vec<Value>>`: the items of a JSON array, or
/// `None` when the text is not one.
#[verifier::external_body]
fn json_parse_array(text: &str) -> (r: Option<Vec<Value>>)
    ensures
        match r {
            Some(v) => json_array_items(text@) == Some(v@.map_values(|x: Value| json_text(x))),
            None => json_array_items(text@) is None,
        },
{
    serde_json::from_str::<Vec<Value>>(text).ok()
}

/// `Value::get` with a string key: the member of an object under `key`,
/// `None` for a missing key or a value that is not an object.
#[verifier::external_body]
fn json_get<'a>(value: &'a Value, key: &str) -> (r: Option<&'a Value>)
    ensures
        match r {
            Some(m) => json_member(json_text(*value), key@) == Some(json_text(*m)),
            None => json_member(json_text(*value), key@) is None,
        },
{
    value.get(key)
}

/// `Value::pointer`: the value at a JSON pointer such as `/info/props`.
#[verifier::external_body]
fn json_pointer<'a>(value: &'a Value, pointer: &str) -> (r: Option<&'a Value>)
    ensures
        match r {
            Some(m) => json_at_pointer(json_text(*value), pointer@) == Some(json_text(*m)),
            None => json_at_pointer(json_text(*value), pointer@) is None,
        },
{
    value.pointer(pointer)
}

/// `Value::as_str`: the text of a JSON string, `None` for other values.
#[verifier::external_body]
fn json_as_str<'a>(value: &'a Value) -> (r: Option<&'a str>)
    ensures
        match r {
            Some(s) => json_string(json_text(*value)) == Some(s@),
            None => json_string(json_text(*value)) is None,
        },
{
    value.as_str()
}

/// `Value::as_u64`: the value of a JSON number that is a `u64`, `None`
/// otherwise.
#[verifier::external_body]
fn json_as_u64(value: &Value) -> (r: Option<u64>)
    ensures
        r == json_unsigned(json_text(*value)),
{
    value.as_u64()
}

/// Why `pw-dump` output could not be read.
#[derive(Debug, Clone, Copy, PartialEq, Eq, Structural)]
pub enum PwDumpError {
    /// The output is not a JSON array.
    InvalidJson,
    /// A playback stream has no numeric id.
    MissingStreamId,
}

/// The properties of a `pw-dump` object that decide whether it is muted
/// and under which label: each the raw string under its key, if any.
#[derive(Debug, Clone, PartialEq, Eq)]
pub struct PwStreamProps {
    pub media_class: Option<String>,
    pub application_name: Option<String>,
    pub media_name: Option<String>,
    pub node_description: Option<String>,
    pub node_name: Option<String>,
}

/// One object of `pw-dump` output, as far as muting reads it.
#[derive(Debug, Clone, PartialEq, Eq)]
pub struct PwObject {
    /// The string under `type`.
    pub node_type: Option<String>,
    /// The unsigned number under `id`.
    pub id: Option<u64>,
    /// The object under `/info/props`.
    pub props: Option<PwStreamProps>,
}

/// [`PwStreamProps`] with its strings as characters.
pub struct PwStreamPropsView {
    pub media_class: Option<Seq<char>>,
    pub application_name: Option<Seq<char>>,
    pub media_name: Option<Seq<char>>,
    pub node_description: Option<Seq<char>>,
    pub node_name: Option<Seq<char>>,
}

/// [`PwObject`] with its strings as characters.
pub struct PwObjectView {
    pub node_type: Option<Seq<char>>,
    pub id: Option<u64>,
    pub props: Option<PwStreamPropsView>,
}

/// The characters of an optional string.
pub open spec fn opt_chars(s: Option<String>) -> Option<Seq<char>> {
    match s {
        Some(t) => Some(t@),
        None => None,
    }
}

impl View for PwStreamProps {
    type V = PwStreamPropsView;

    open spec fn view(&self) -> PwStreamPropsView {
        PwStreamPropsView {
            media_class: opt_chars(self.media_class),
            application_name: opt_chars(self.application_name),
            media_name: opt_chars(self.media_name),
            node_description: opt_chars(self.node_description),
            node_name: opt_chars(self.node_name),
        }
    }
}

impl View for PwObject {
    type V = PwObjectView;

    open spec fn view(&self) -> PwObjectView {
        PwObjectView {
            node_type: opt_chars(self.node_type),
            id: self.id,
            props: match self.props {
                Some(p) => Some(p@),
                None => None,
            },
        }
    }
}

/// A property that counts: present and not blank.
pub open spec fn nonblank(s: Option<Seq<char>>) -> Option<Seq<char>> {
    match s {
        Some(t) => if trim(t).len() > 0 {
            Some(t)
        } else {
            None
        },
        None => None,
    }
}

/// The first non-blank of the application name, media name, node
/// description and node name of a stream.
pub open spec fn stream_label(p: PwStreamPropsView) -> Option<Seq<char>> {
    if nonblank(p.application_name) is Some {
        nonblank(p.application_name)
    } else if nonblank(p.media_name) is Some {
        nonblank(p.media_name)
    } else if nonblank(p.node_description) is Some {
        nonblank(p.node_description)
    } else {
        nonblank(p.node_name)
    }
}

/// The label of a stream without a usable name.
pub open spec fn fallback_label(id: u64) -> Seq<char> {
    "PipeWire stream "@ + crate::text::decimal(id as nat)
}

/// What one `pw-dump` object contributes: a mute target for an audio
/// playback node, nothing for any other object, and an error for a
/// playback node without a numeric id.
pub open spec fn object_target(o: PwObjectView) -> Result<Option<TargetView>, PwDumpError> {
    match o.props {
        Some(p) => if o.node_type == Some("PipeWire:Interface:Node"@) && nonblank(p.media_class)
            == Some("Stream/Output/Audio"@) {
            match o.id {
                Some(n) => Ok(
                    Some(
                        TargetView {
                            backend: SpeakerMuteBackend::PipeWire,
                            target_id: crate::text::decimal(n as nat),
                            label: match stream_label(p) {
                                Some(l) => l,
                                None => fallback_label(n),
                            },
                            kind: SpeakerMuteTargetKind::PlaybackStream,
                        },
                    ),
                ),
                None => Err(PwDumpError::MissingStreamId),
            }
        } else {
            Ok(None)
        },
        None => Ok(None),
    }
}

/// The targets of a run of `pw-dump` objects, in their order, or the
/// first error.
pub open spec fn dump_targets(objects: Seq<PwObjectView>) -> Result<Seq<TargetView>, PwDumpError>
    decreases objects.len(),
{
    if objects.len() == 0 {
        Ok(Seq::empty())
    } else {
        match dump_targets(objects.drop_last()) {
            Err(e) => Err(e),
            Ok(ts) => match object_target(objects.last()) {
                Err(e) => Err(e),
                Ok(None) => Ok(ts),
                Ok(Some(t)) => Ok(ts.push(t)),
            },
        }
    }
}

/// A result of targets, by the targets' views.
pub open spec fn targets_view(r: Result<Vec<SpeakerMuteTarget>, PwDumpError>) -> Result<Seq<TargetView>, PwDumpError> {
    match r {
        Ok(v) => Ok(v@.map_values(|t: SpeakerMuteTarget| t@)),
        Err(e) => Err(e),
    }
}

/// Every target that [`dump_targets`] yields is a PipeWire playback
/// stream, and its only error is a stream without an id.
pub proof fn lemma_dump_targets_are_streams(objects: Seq<PwObjectView>)
    ensures
        dump_targets(objects) matches Err(e) ==> e == PwDumpError::MissingStreamId,
        dump_targets(objects) matches Ok(ts) ==> forall|i: int|
            0 <= i < ts.len() ==> (#[trigger] ts[i]).backend == SpeakerMuteBackend::PipeWire
                && ts[i].kind == SpeakerMuteTargetKind::PlaybackStream,
    decreases objects.len(),
{
    if objects.len() > 0 {
        lemma_dump_targets_are_streams(objects.drop_last());
    }
}

/// An error among the first objects is the error of the whole run.
proof fn lemma_dump_targets_error_stays(objects: Seq<PwObjectView>, k: int)
    requires
        0 <= k <= objects.len(),
        dump_targets(objects.take(k)) is Err,
    ensures
        dump_targets(objects) == dump_targets(objects.take(k)),
    decreases objects.len(),
{
    if k == objects.len() {
        assert(objects.take(k) =~= objects);
    } else {
        assert(objects.drop_last().take(k) =~= objects.take(k));
        lemma_dump_targets_error_stays(objects.drop_last(), k);
    }
}

fn is_nonblank(s: &str) -> (b: bool)
    ensures
        b == (trim(s@).len() > 0),
{
    let c = chars_of(s);
    let t = trim_chars(c.as_slice());
    t.len() > 0
}

fn nonblank_prop(s: &Option<String>) -> (r: Option<String>)
    ensures
        opt_chars(r) == nonblank(opt_chars(*s)),
{
    match s {
        Some(t) => if is_nonblank(t.as_str()) {
            Some(t.clone())
        } else {
            None
        },
        None => None,
    }
}

/// The first non-blank of the application name, media name, node
/// description and node name of a stream.
pub fn playback_stream_label(props: &PwStreamProps) -> (r: Option<String>)
    ensures
        opt_chars(r) == stream_label(props@),
{
    let a = nonblank_prop(&props.application_name);
    if a.is_some() {
        return a;
    }
    let m = nonblank_prop(&props.media_name);
    if m.is_some() {
        return m;
    }
    let d = nonblank_prop(&props.node_description);
    if d.is_some() {
        return d;
    }
    nonblank_prop(&props.node_name)
}

fn optional_is(value: &Option<String>, expected: &str) -> (b: bool)
    ensures
        b == (opt_chars(*value) == Some(expected@)),
{
    match value {
        Some(s) => {
            let a = chars_of(s.as_str());
            let b = chars_of(expected);
            chars_equal(a.as_slice(), b.as_slice())
        },
        None => false,
    }
}

/// What one `pw-dump` object contributes: a mute target for an audio
/// playback node, nothing for any other object, and an error for a
/// playback node without a numeric id.
pub fn playback_target(object: &PwObject) -> (r: Result<Option<SpeakerMuteTarget>, PwDumpError>)
    ensures
        match r {
            Ok(Some(t)) => object_target(object@) == Ok::<Option<TargetView>, PwDumpError>(Some(t@)),
            Ok(None) => object_target(object@) == Ok::<Option<TargetView>, PwDumpError>(None),
            Err(e) => object_target(object@) == Err::<Option<TargetView>, PwDumpError>(e),
        },
{
    let props = match &object.props {
        Some(p) => p,
        None => {
            return Ok(None);
        },
    };
    let class = nonblank_prop(&props.media_class);
    if !optional_is(&object.node_type, "PipeWire:Interface:Node") || !optional_is(
        &class,
        "Stream/Output/Audio",
    ) {
        return Ok(None);
    }
    let n = match object.id {
        Some(n) => n,
        None => {
            return Err(PwDumpError::MissingStreamId);
        },
    };
    let text = match playback_stream_label(props) {
        Some(l) => l,
        None => {
            let mut out: Vec<char> = Vec::new();
            push_str(&mut out, "PipeWire stream ");
            push_decimal(&mut out, n);
            string_from_chars(out.as_slice())
        },
    };
    Ok(Some(SpeakerMuteTarget::pipewire_stream(n, text)))
}

/// The audio playback streams among `pw-dump` objects, in their order, as
/// mute targets; an error for the first playback node without a numeric id.
pub fn playback_stream_targets(objects: &[PwObject]) -> (r: Result<Vec<SpeakerMuteTarget>, PwDumpError>)
    ensures
        targets_view(r) == dump_targets(objects@.map_values(|o: PwObject| o@)),
{
    let ghost views = objects@.map_values(|o: PwObject| o@);
    let mut targets: Vec<SpeakerMuteTarget> = Vec::new();
    let mut i: usize = 0;
    assert(views.take(0) =~= Seq::<PwObjectView>::empty());
    assert(targets@.map_values(|t: SpeakerMuteTarget| t@) =~= Seq::<TargetView>::empty());
    while i < objects.len()
        invariant
            i <= objects@.len(),
            views == objects@.map_values(|o: PwObject| o@),
            dump_targets(views.take(i as int)) == Ok::<Seq<TargetView>, PwDumpError>(
                targets@.map_values(|t: SpeakerMuteTarget| t@),
            ),
        decreases objects@.len() - i,
    {
        assert(views.take(i + 1).drop_last() =~= views.take(i as int));
        assert(views.take(i + 1).last() == objects@[i as int]@);
        match playback_target(&objects[i]) {
            Ok(Some(t)) => {
                let ghost before = targets@;
                targets.push(t);
                assert(targets@.map_values(|t: SpeakerMuteTarget| t@) =~= before.map_values(
                    |t: SpeakerMuteTarget| t@,
                ).push(t@));
            },
            Ok(None) => {},
            Err(e) => {
                proof {
                    lemma_dump_targets_error_stays(views, i + 1);
                }
                return Err(e);
            },
        }
        i = i + 1;
    }
    assert(views.take(objects@.len() as int) =~= views);
    Ok(targets)
}

/// The string under `key` in the JSON value with text `value`.
pub open spec fn string_member(value: Seq<char>, key: Seq<char>) -> Option<Seq<char>> {
    match json_member(value, key) {
        Some(m) => json_string(m),
        None => None,
    }
}

/// The fields that muting reads from one `pw-dump` object with JSON text
/// `t`: the string `type`, the unsigned `id`, and under `/info/props` the
/// strings `media.class`, `application.name`, `media.name`,
/// `node.description` and `node.name`.
pub open spec fn pw_object_of(t: Seq<char>) -> PwObjectView {
    PwObjectView {
        node_type: string_member(t, "type"@),
        id: match json_member(t, "id"@) {
            Some(m) => json_unsigned(m),
            None => None,
        },
        props: match json_at_pointer(t, "/info/props"@) {
            Some(p) => Some(
                PwStreamPropsView {
                    media_class: string_member(p, "media.class"@),
                    application_name: string_member(p, "application.name"@),
                    media_name: string_member(p, "media.name"@),
                    node_description: string_member(p, "node.description"@),
                    node_name: string_member(p, "node.name"@),
                },
            ),
            None => None,
        },
    }
}

/// The objects of `pw-dump` output with JSON text `dump`, where it is a
/// JSON array.
pub open spec fn pw_objects_of(dump: Seq<char>) -> Option<Seq<PwObjectView>> {
    match json_array_items(dump) {
        Some(items) => Some(items.map_values(|t: Seq<char>| pw_object_of(t))),
        None => None,
    }
}

/// The raw string under `key` in a JSON value, if it is a string.
fn owned_str(value: &Value, key: &str) -> (r: Option<String>)
    ensures
        opt_chars(r) == string_member(json_text(*value), key@),
{
    match json_get(value, key) {
        Some(v) => match json_as_str(v) {
            Some(s) => Some(s.to_owned()),
            None => None,
        },
        None => None,
    }
}

/// The fields of one `pw-dump` object that muting reads.
fn pw_object(object: &Value) -> (r: PwObject)
    ensures
        r@ == pw_object_of(json_text(*object)),
{
    let props = match json_pointer(object, "/info/props") {
        Some(p) => Some(
            PwStreamProps {
                media_class: owned_str(p, "media.class"),
                application_name: owned_str(p, "application.name"),
                media_name: owned_str(p, "media.name"),
                node_description: owned_str(p, "node.description"),
                node_name: owned_str(p, "node.name"),
            },
        ),
        None => None,
    };
    let id = match json_get(object, "id") {
        Some(v) => json_as_u64(v),
        None => None,
    };
    PwObject { node_type: owned_str(object, "type"), id, props }
}

/// The audio playback streams in `pw-dump` output, as mute targets, in
/// their order; `InvalidJson` when the output is not a JSON array.
pub fn pipewire_playback_stream_targets_from_dump(dump: &str) -> (r: Result<Vec<SpeakerMuteTarget>, PwDumpError>)
    ensures
        match pw_objects_of(dump@) {
            None => r == Err::<Vec<SpeakerMuteTarget>, PwDumpError>(PwDumpError::InvalidJson),
            Some(objects) => targets_view(r) == dump_targets(objects),
        },
        r matches Ok(ts) ==> forall|i: int|
            0 <= i < ts@.len() ==> (#[trigger] ts@[i]).backend == SpeakerMuteBackend::PipeWire
                && ts@[i].kind == SpeakerMuteTargetKind::PlaybackStream,
{
    let values = match json_parse_array(dump) {
        Some(values) => values,
        None => {
            return Err(PwDumpError::InvalidJson);
        },
    };
    let ghost texts = values@.map_values(|x: Value| json_text(x));
    let mut objects: Vec<PwObject> = Vec::new();
    let mut i: usize = 0;
    while i < values.len()
        invariant
            i <= values@.len(),
            texts == values@.map_values(|x: Value| json_text(x)),
            objects@.len() == i,
            forall|j: int| 0 <= j < i ==> #[trigger] objects@[j]@ == pw_object_of(texts[j]),
        decreases values@.len() - i,
    {
        objects.push(pw_object(&values[i]));
        i = i + 1;
    }
    proof {
        assert(objects@.map_values(|o: PwObject| o@) =~= texts.map_values(
            |t: Seq<char>| pw_object_of(t),
        ));
    }
    let r = playback_stream_targets(objects.as_slice());
    proof {
        let views = objects@.map_values(|o: PwObject| o@);
        lemma_dump_targets_are_streams(views);
        if r is Ok {
            let ts = r->Ok_0;
            assert forall|i: int| 0 <= i < ts@.len() implies (#[trigger] ts@[i]).backend
                == SpeakerMuteBackend::PipeWire && ts@[i].kind
                == SpeakerMuteTargetKind::PlaybackStream by {
                assert(ts@.map_values(|t: SpeakerMuteTarget| t@)[i] == ts@[i]@);
            }
        }
    }
    r
}

/// The targets to mute with a backend: the default sink, and with
/// PipeWire the playback streams found before it.
pub fn speaker_mute_targets(backend: SpeakerMuteBackend, streams: Vec<SpeakerMuteTarget>) -> (r: Vec<SpeakerMuteTarget>)
    ensures
        backend == SpeakerMuteBackend::PipeWire ==> r@.len() == streams@.len() + 1
            && r@.subrange(0, streams@.len() as int) == streams@
            && r@.last()@ == SpeakerMuteTarget::wpctl_default_sink_view(backend),
        backend == SpeakerMuteBackend::Wpctl ==> r@.len() == 1 && r@[0]@
            == SpeakerMuteTarget::wpctl_default_sink_view(backend),
        backend == SpeakerMuteBackend::Pactl ==> r@.len() == 1 && r@[0]@
            == SpeakerMuteTarget::pactl_default_sink_view(),
{
    match backend {
        SpeakerMuteBackend::PipeWire => {
            let mut r = streams;
            let ghost before = r@;
            r.push(SpeakerMuteTarget::wpctl_default_sink(backend));
            assert(r@.subrange(0, before.len() as int) =~= before);
            r
        },
        SpeakerMuteBackend::Wpctl => {
            let mut r: Vec<SpeakerMuteTarget> = Vec::new();
            r.push(SpeakerMuteTarget::wpctl_default_sink(backend));
            r
        },
        SpeakerMuteBackend::Pactl => {
            let mut r: Vec<SpeakerMuteTarget> = Vec::new();
            r.push(SpeakerMuteTarget::pactl_default_sink());
            r
        },
    }
}

} // verus!
