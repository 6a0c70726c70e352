//! The transcription history: its entries and which texts are kept.
use vstd::prelude::*;

use crate::text::{chars_of, slice_chars, split_chars, split_on, string_from_chars, trim, trim_chars};

verus! {

broadcast use vstd::string::group_string_axioms;

/// Where a history entry's text came from.
#[derive(Debug, Clone, Copy, PartialEq, Eq, Structural)]
pub enum HistorySource {
    Transcription,
    Script,
}

impl HistorySource {
    /// The label shown in the history list.
    pub fn label(self) -> (s: &'static str)
        ensures
            s@ == (match self {
                HistorySource::Transcription => "Transcription"@,
                HistorySource::Script => "Script"@,
            }),
    {
        match self {
            HistorySource::Transcription => "Transcription",
            HistorySource::Script => "Script",
        }
    }

    /// The name stored in the history file.
    pub fn wire_name(self) -> (s: &'static str)
        ensures
            s@ == (match self {
                HistorySource::Transcription => "transcription"@,
                HistorySource::Script => "script"@,
            }),
    {
        match self {
            HistorySource::Transcription => "transcription",
            HistorySource::Script => "script",
        }
    }
}

/// One recognized or script-produced text.
#[derive(Debug, Clone, PartialEq, Eq)]
pub struct HistoryEntry {
    pub created_at_unix_ms: u128,
    pub recording_id: u64,
    pub shortcut_id: String,
    pub shortcut_name: String,
    pub model_id: String,
    pub language: String,
    pub source: HistorySource,
    pub text: String,
}

/// Whether a text has anything but white space.
pub fn has_content(text: &str) -> (b: bool)
    ensures
        b == (trim(text@).len() > 0),
{
    let v = chars_of(text);
    trim_chars(v.as_slice()).len() > 0
}

/// The entry to add to the history: the text trimmed, or none where
/// nothing is left.
pub fn prepare_history_entry(entry: HistoryEntry) -> (r: Option<HistoryEntry>)
    ensures
        trim(entry.text@).len() == 0 ==> r is None,
        trim(entry.text@).len() > 0 ==> (r matches Some(e) && e.text@ == trim(entry.text@)
            && e.created_at_unix_ms == entry.created_at_unix_ms && e.recording_id
            == entry.recording_id && e.shortcut_id == entry.shortcut_id && e.shortcut_name
            == entry.shortcut_name && e.model_id == entry.model_id && e.language == entry.language
            && e.source == entry.source),
{
    let v = chars_of(entry.text.as_str());
    let t = trim_chars(v.as_slice());
    if t.len() == 0 {
        return None;
    }
    Some(HistoryEntry { text: string_from_chars(t.as_slice()), ..entry })
}

/// Adds an entry to the in-memory history, trimmed; blank texts are not
/// added. Returns whether it was added.
pub fn append_history_entry(entries: &mut Vec<HistoryEntry>, entry: HistoryEntry) -> (added: bool)
    ensures
        added == (trim(entry.text@).len() > 0),
        !added ==> final(entries)@ == old(entries)@,
        added ==> final(entries)@.len() == old(entries)@.len() + 1 && final(entries)@.subrange(
            0,
            old(entries)@.len() as int,
        ) == old(entries)@ && final(entries)@.last().text@ == trim(entry.text@),
{
    match prepare_history_entry(entry) {
        Some(e) => {
            let ghost before = entries@;
            entries.push(e);
            assert(entries@.subrange(0, before.len() as int) =~= before);
            true
        },
        None => false,
    }
}

/// A history entry for a finished transcription.
pub fn history_entry_from_transcription(
    created_at_unix_ms: u128,
    recording_id: u64,
    shortcut_id: &str,
    shortcut_name: &str,
    model_id: &str,
    language: &str,
    source: HistorySource,
    text: &str,
) -> (e: HistoryEntry)
    ensures
        e.created_at_unix_ms == created_at_unix_ms,
        e.recording_id == recording_id,
        e.shortcut_id@ == shortcut_id@,
        e.shortcut_name@ == shortcut_name@,
        e.model_id@ == model_id@,
        e.language@ == language@,
        e.source == source,
        e.text@ == text@,
{
    HistoryEntry {
        created_at_unix_ms,
        recording_id,
        shortcut_id: shortcut_id.to_string(),
        shortcut_name: shortcut_name.to_string(),
        model_id: model_id.to_string(),
        language: language.to_string(),
        source,
        text: text.to_string(),
    }
}

/// A history entry for the text an output script produced.
pub fn history_entry_from_script_result(
    created_at_unix_ms: u128,
    recording_id: u64,
    shortcut_id: &str,
    shortcut_name: &str,
    model_id: &str,
    language: &str,
    text: &str,
) -> (e: HistoryEntry)
    ensures
        e.created_at_unix_ms == created_at_unix_ms,
        e.recording_id == recording_id,
        e.shortcut_id@ == shortcut_id@,
        e.shortcut_name@ == shortcut_name@,
        e.model_id@ == model_id@,
        e.language@ == language@,
        e.source == HistorySource::Script,
        e.text@ == text@,
{
    history_entry_from_transcription(
        created_at_unix_ms,
        recording_id,
        shortcut_id,
        shortcut_name,
        model_id,
        language,
        HistorySource::Script,
        text,
    )
}


/// A line without the `\r` of a `\r\n` line break.
pub open spec fn strip_cr(line: Seq<char>) -> Seq<char> {
    if line.len() > 0 && line.last() == '\r' {
        line.drop_last()
    } else {
        line
    }
}

/// The lines among `parts` that are not blank, each without a trailing
/// `\r`, in order.
pub open spec fn content_lines(parts: Seq<Seq<char>>) -> Seq<Seq<char>>
    decreases parts.len(),
{
    if parts.len() == 0 {
        seq![]
    } else {
        let prev = content_lines(parts.drop_last());
        let line = strip_cr(parts.last());
        if trim(line).len() == 0 {
            prev
        } else {
            prev.push(line)
        }
    }
}

/// The entry lines of a history file: its lines that are not blank, each
/// holding one entry.
pub fn history_lines(contents: &str) -> (v: Vec<String>)
    ensures
        v@.map_values(|l: String| l@) == content_lines(split_on(contents@, '\n')),
{
    let all = chars_of(contents);
    let parts = split_chars(all.as_slice(), '\n');
    let ghost pv = parts@.map_values(|p: Vec<char>| p@);
    let mut out: Vec<String> = Vec::new();
    let mut i: usize = 0;
    while i < parts.len()
        invariant
            i <= parts@.len(),
            pv == parts@.map_values(|p: Vec<char>| p@),
            out@.map_values(|l: String| l@) == content_lines(pv.subrange(0, i as int)),
        decreases parts@.len() - i,
    {
        let ghost before = out@.map_values(|l: String| l@);
        assert(pv.subrange(0, i + 1).drop_last() =~= pv.subrange(0, i as int));
        assert(pv[i as int] == parts@[i as int]@);
        let p = &parts[i];
        let line = if p.len() > 0 && p[p.len() - 1] == '\r' {
            slice_chars(p.as_slice(), 0, p.len() - 1)
        } else {
            slice_chars(p.as_slice(), 0, p.len())
        };
        assert(line@ =~= strip_cr(pv[i as int]));
        let t = trim_chars(line.as_slice());
        if t.len() > 0 {
            out.push(string_from_chars(line.as_slice()));
            assert(out@.map_values(|l: String| l@) =~= before.push(line@));
        }
        i = i + 1;
    }
    assert(pv.subrange(0, i as int) =~= pv);
    out
}

} // verus!
