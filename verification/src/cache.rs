//! The loaded speech model kept between transcriptions: at most one, found
//! again by model path and compute backend.
use vstd::prelude::*;

use crate::runtime::same_str;
use crate::whisper::ComputeBackend;

verus! {

broadcast use vstd::string::group_string_axioms;

/// What a loaded model is found by: the model file and the backend it was
/// loaded for.
#[derive(Debug, Clone, PartialEq, Eq)]
pub struct ModelCacheKey {
    pub model_path: String,
    pub compute_backend: ComputeBackend,
}

/// Whether two keys name the same file and backend.
pub open spec fn same_key(a: ModelCacheKey, b: ModelCacheKey) -> bool {
    a.model_path@ == b.model_path@ && a.compute_backend == b.compute_backend
}

impl ModelCacheKey {
    /// Whether `self` and `other` name the same file and backend.
    pub fn matches(&self, other: &ModelCacheKey) -> (b: bool)
        ensures
            b == same_key(*self, *other),
    {
        self.compute_backend == other.compute_backend && same_str(
            self.model_path.as_str(),
            other.model_path.as_str(),
        )
    }
}

/// A loaded model with its key.
pub struct CachedModel<T> {
    pub key: ModelCacheKey,
    pub value: T,
}

/// Holds at most one loaded model.
pub struct SingleModelCache<T> {
    entry: Option<CachedModel<T>>,
}

impl<T> Default for SingleModelCache<T> {
    /// An empty cache.
    fn default() -> (c: Self)
        ensures
            c.entry() is None,
    {
        SingleModelCache { entry: None }
    }
}

impl<T> SingleModelCache<T> {
    /// The cached model, if any.
    pub closed spec fn entry(&self) -> Option<CachedModel<T>> {
        self.entry
    }

    /// The value cached under a key that matches `key`, if any.
    pub fn get(&self, key: &ModelCacheKey) -> (r: Option<&T>)
        ensures
            match self.entry() {
                Some(e) => if same_key(e.key, *key) {
                    r matches Some(v) && *v == e.value
                } else {
                    r is None
                },
                None => r is None,
            },
    {
        match &self.entry {
            Some(e) => {
                if e.key.matches(key) {
                    Some(&e.value)
                } else {
                    None
                }
            },
            None => None,
        }
    }

    /// Caches `value` under `key`, giving back the model it displaces.
    pub fn replace(&mut self, key: ModelCacheKey, value: T) -> (r: Option<CachedModel<T>>)
        ensures
            final(self).entry() == Some(CachedModel { key, value }),
            r == old(self).entry(),
    {
        let previous = self.entry.take();
        self.entry = Some(CachedModel { key, value });
        previous
    }

    /// Takes out the cached model when it was loaded from `model_path`,
    /// whatever its backend; otherwise leaves the cache as it is.
    pub fn take_if_path(&mut self, model_path: &str) -> (r: Option<CachedModel<T>>)
        ensures
            match old(self).entry() {
                Some(e) => if e.key.model_path@ == model_path@ {
                    r == old(self).entry() && final(self).entry() is None
                } else {
                    r is None && final(self).entry() == old(self).entry()
                },
                None => r is None && final(self).entry() is None,
            },
    {
        let hit = match &self.entry {
            Some(e) => same_str(e.key.model_path.as_str(), model_path),
            None => false,
        };
        if hit {
            self.entry.take()
        } else {
            None
        }
    }

    /// Empties the cache, giving back what it held.
    pub fn clear(&mut self) -> (r: Option<CachedModel<T>>)
        ensures
            r == old(self).entry(),
            final(self).entry() is None,
    {
        self.entry.take()
    }
}

/// A value cached under `key` is found by every key that matches it.
pub proof fn lemma_replace_then_get<T>(
    before: SingleModelCache<T>,
    after: SingleModelCache<T>,
    key: ModelCacheKey,
    value: T,
    probe: ModelCacheKey,
)
    requires
        after.entry() == Some(CachedModel { key, value }),
    ensures
        same_key(key, probe) ==> (after.entry() matches Some(e) && same_key(e.key, probe)
            && e.value == value),
        !same_key(key, probe) ==> (after.entry() matches Some(e) && !same_key(e.key, probe)),
{
}

/// How a transcription that used the cache ended.
#[derive(Debug, Clone, Copy, PartialEq, Eq, Structural)]
pub enum TranscriptionOutcome {
    Completed,
    Skipped,
    Failed,
}

/// The model cache of the transcription engine and whether it keeps the
/// model loaded between transcriptions.
pub struct EngineCache<T> {
    pub cache: SingleModelCache<T>,
    pub keep_model_loaded: bool,
}

impl<T> EngineCache<T> {
    /// An empty cache with the given keep-loaded setting.
    pub fn new(keep_model_loaded: bool) -> (c: Self)
        ensures
            c.cache.entry() is None,
            c.keep_model_loaded == keep_model_loaded,
    {
        EngineCache { cache: SingleModelCache::default(), keep_model_loaded }
    }

    /// Changes the keep-loaded setting; turning it off drops the cached
    /// model, which is given back. Setting the same value changes nothing.
    pub fn set_keep_model_loaded(&mut self, keep_model_loaded: bool) -> (dropped: Option<
        CachedModel<T>,
    >)
        ensures
            final(self).keep_model_loaded == keep_model_loaded,
            old(self).keep_model_loaded == keep_model_loaded ==> dropped is None
                && final(self).cache.entry() == old(self).cache.entry(),
            old(self).keep_model_loaded != keep_model_loaded && keep_model_loaded ==> dropped is None
                && final(self).cache.entry() == old(self).cache.entry(),
            old(self).keep_model_loaded != keep_model_loaded && !keep_model_loaded ==> dropped
                == old(self).cache.entry() && final(self).cache.entry() is None,
    {
        if self.keep_model_loaded == keep_model_loaded {
            return None;
        }
        self.keep_model_loaded = keep_model_loaded;
        if keep_model_loaded {
            None
        } else {
            self.cache.clear()
        }
    }

    /// After a transcription: a skipped or failed one drops the cached
    /// model, which is given back; a completed one keeps it.
    pub fn after_transcription(&mut self, outcome: TranscriptionOutcome) -> (dropped: Option<
        CachedModel<T>,
    >)
        ensures
            final(self).keep_model_loaded == old(self).keep_model_loaded,
            outcome == TranscriptionOutcome::Completed ==> dropped is None
                && final(self).cache.entry() == old(self).cache.entry(),
            outcome != TranscriptionOutcome::Completed ==> dropped == old(self).cache.entry()
                && final(self).cache.entry() is None,
    {
        match outcome {
            TranscriptionOutcome::Completed => None,
            _ => self.cache.clear(),
        }
    }

    /// Stores a model loaded for `key` after a miss: whatever was cached
    /// before is evicted and given back.
    pub fn store_loaded(&mut self, key: ModelCacheKey, value: T) -> (evicted: Option<CachedModel<T>>)
        ensures
            final(self).keep_model_loaded == old(self).keep_model_loaded,
            final(self).cache.entry() == Some(CachedModel { key, value }),
            evicted == old(self).cache.entry(),
    {
        let evicted = self.cache.clear();
        self.cache.replace(key, value);
        evicted
    }
}

} // verus!
