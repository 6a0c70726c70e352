use quillspeak::cache::{EngineCache, ModelCacheKey, SingleModelCache, TranscriptionOutcome};
use quillspeak::whisper::ComputeBackend;

fn cache_key(path: &str, compute_backend: ComputeBackend) -> ModelCacheKey {
    ModelCacheKey { model_path: path.to_string(), compute_backend }
}

#[test]
fn single_model_cache_keeps_only_latest_context() {
    let mut cache = SingleModelCache::default();
    let first = cache_key("/tmp/first.bin", ComputeBackend::Cpu);
    let second = cache_key("/tmp/second.bin", ComputeBackend::Cpu);

    assert!(cache.replace(first.clone(), "first").is_none());
    assert_eq!(cache.get(&first), Some(&"first"));

    let evicted = cache.replace(second.clone(), "second").expect("old entry");
    assert_eq!(evicted.key, first);
    assert_eq!(cache.get(&second), Some(&"second"));
}

#[test]
fn single_model_cache_takes_matching_model_path() {
    let mut cache = SingleModelCache::default();
    let key = cache_key("/tmp/model.bin", ComputeBackend::Auto);
    cache.replace(key.clone(), "context");

    assert!(cache.take_if_path("/tmp/other.bin").is_none());
    assert_eq!(cache.take_if_path("/tmp/model.bin").map(|entry| entry.key), Some(key));
    assert!(cache.get(&cache_key("/tmp/model.bin", ComputeBackend::Auto)).is_none());
}

#[test]
fn cache_lookup_needs_the_same_backend() {
    let mut cache = SingleModelCache::default();
    cache.replace(cache_key("/tmp/model.bin", ComputeBackend::Cpu), 7);
    assert_eq!(cache.get(&cache_key("/tmp/model.bin", ComputeBackend::Cpu)), Some(&7));
    assert!(cache.get(&cache_key("/tmp/model.bin", ComputeBackend::Vulkan)).is_none());
    assert!(cache.clear().is_some());
    assert!(cache.clear().is_none());
}

#[test]
fn engine_cache_drops_model_when_disabled_or_after_failures() {
    let mut engine = EngineCache::new(true);
    assert!(engine.store_loaded(cache_key("/tmp/a.bin", ComputeBackend::Cpu), "a").is_none());
    assert!(engine.after_transcription(TranscriptionOutcome::Completed).is_none());
    assert_eq!(engine.cache.get(&cache_key("/tmp/a.bin", ComputeBackend::Cpu)), Some(&"a"));

    let evicted = engine
        .store_loaded(cache_key("/tmp/b.bin", ComputeBackend::Cpu), "b")
        .expect("previous model is evicted");
    assert_eq!(evicted.key.model_path, "/tmp/a.bin");

    let dropped = engine.after_transcription(TranscriptionOutcome::Skipped).expect("dropped");
    assert_eq!(dropped.value, "b");
    assert!(engine.after_transcription(TranscriptionOutcome::Failed).is_none());

    engine.store_loaded(cache_key("/tmp/c.bin", ComputeBackend::Cpu), "c");
    assert!(engine.set_keep_model_loaded(true).is_none());
    assert!(engine.cache.get(&cache_key("/tmp/c.bin", ComputeBackend::Cpu)).is_some());
    assert_eq!(engine.set_keep_model_loaded(false).map(|e| e.value), Some("c"));
    assert!(!engine.keep_model_loaded);
    assert!(engine.set_keep_model_loaded(true).is_none());
}
