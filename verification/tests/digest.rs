use quillspeak::digest::{model_file_ready, sha1_hex_of, Sha1Hasher};

#[test]
fn sha1_of_known_inputs() {
    assert_eq!(sha1_hex_of(b"abc"), "a9993e364706816aba3e25717850c26c9cd0d89d");
    assert_eq!(sha1_hex_of(b""), "da39a3ee5e6b4b0d3255bfef95601890afd80709");
}

#[test]
fn chunked_hashing_matches_one_shot() {
    let mut hasher = Sha1Hasher::new();
    hasher.update(b"a");
    hasher.update(b"bc");
    assert_eq!(hasher.finalize_hex(), sha1_hex_of(b"abc"));
}

#[test]
fn model_file_ready_needs_file_and_matching_digest() {
    let digest = sha1_hex_of(b"model");
    assert!(model_file_ready(true, Some(digest.clone()), &digest));
    assert!(!model_file_ready(false, Some(digest.clone()), &digest));
    assert!(!model_file_ready(true, None, &digest));
    assert!(!model_file_ready(true, Some("00".to_string()), &digest));
}
