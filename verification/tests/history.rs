use quillspeak::history::history_lines;
use quillspeak::history::{
    append_history_entry, has_content, history_entry_from_script_result,
    history_entry_from_transcription, prepare_history_entry, HistoryEntry, HistorySource,
};

fn test_entry(recording_id: u64, text: &str, source: HistorySource) -> HistoryEntry {
    HistoryEntry {
        created_at_unix_ms: u128::from(recording_id),
        recording_id,
        shortcut_id: "default".to_string(),
        shortcut_name: "Default".to_string(),
        model_id: "tiny".to_string(),
        language: "auto".to_string(),
        source,
        text: text.to_string(),
    }
}

#[test]
fn history_store_skips_empty_text_appends() {
    let mut entries = Vec::new();
    assert!(!append_history_entry(&mut entries, test_entry(1, "   ", HistorySource::Transcription)));
    assert!(entries.is_empty());
    assert!(!has_content(" \n\t"));
}

#[test]
fn history_keeps_trimmed_texts_in_order() {
    let mut entries = Vec::new();
    assert!(append_history_entry(&mut entries, test_entry(1, " hello ", HistorySource::Transcription)));
    assert!(append_history_entry(&mut entries, test_entry(2, "translated", HistorySource::Script)));
    assert_eq!(entries.len(), 2);
    assert_eq!(entries[0].text, "hello");
    assert_eq!(entries[1].source, HistorySource::Script);
    assert_eq!(prepare_history_entry(test_entry(3, "", HistorySource::Script)), None);
}

#[test]
fn history_entries_carry_their_context() {
    let e = history_entry_from_transcription(
        42, 7, "default", "Default", "tiny", "uk", HistorySource::Transcription, "привіт",
    );
    assert_eq!(e.created_at_unix_ms, 42);
    assert_eq!(e.recording_id, 7);
    assert_eq!(e.language, "uk");
    assert_eq!(e.text, "привіт");
    let s = history_entry_from_script_result(1, 2, "s", "S", "m", "en", "out");
    assert_eq!(s.source, HistorySource::Script);
    assert_eq!(HistorySource::Transcription.label(), "Transcription");
    assert_eq!(HistorySource::Script.label(), "Script");
    assert_eq!(HistorySource::Script.wire_name(), "script");
}

#[test]
fn history_lines_skip_blank_lines_and_carriage_returns() {
    let contents = "{\"a\":1}\r\n\n   \n{\"b\":2}\n";
    assert_eq!(history_lines(contents), vec!["{\"a\":1}".to_string(), "{\"b\":2}".to_string()]);
    assert!(history_lines("").is_empty());
    assert_eq!(history_lines("last without newline"), vec!["last without newline".to_string()]);
}
