//! SHA-1 checksums of model files, computed by the `sha1` crate over the
//! bytes fed to a hasher.
use vstd::prelude::*;

use sha1::Digest;

use crate::text::chars_equal;
use crate::text::chars_of;

verus! {

/// A running SHA-1 computation (`sha1::Sha1`).
#[verifier::external_body]
pub struct Sha1Hasher {
    inner: sha1::Sha1,
}

/// The bytes fed to a hasher so far.
pub uninterp spec fn sha1_fed(h: Sha1Hasher) -> Seq<u8>;

/// The lower-case hexadecimal SHA-1 digest of a byte sequence.
pub uninterp spec fn sha1_hex(bytes: Seq<u8>) -> Seq<char>;

impl Sha1Hasher {
    /// A hasher that has seen no bytes (`Sha1::new`).
    #[verifier::external_body]
    pub fn new() -> (h: Self)
        ensures
            sha1_fed(h) == Seq::<u8>::empty(),
    {
        Sha1Hasher { inner: sha1::Sha1::new() }
    }

    /// Feeds `data` to the hasher (`Digest::update`).
    #[verifier::external_body]
    pub fn update(&mut self, data: &[u8])
        ensures
            sha1_fed(*final(self)) == sha1_fed(*old(self)) + data@,
    {
        self.inner.update(data);
    }

    /// The digest of all bytes fed, as 40 lower-case hexadecimal digits
    /// (`Digest::finalize`, written with `{:x}`).
    #[verifier::external_body]
    pub fn finalize_hex(self) -> (s: String)
        ensures
            s@ == sha1_hex(sha1_fed(self)),
            s@.len() == 40,
    {
        format!("{:x}", self.inner.finalize())
    }
}

/// The SHA-1 digest of `data` in hexadecimal.
pub fn sha1_hex_of(data: &[u8]) -> (s: String)
    ensures
        s@ == sha1_hex(data@),
{
    let mut h = Sha1Hasher::new();
    h.update(data);
    assert(Seq::<u8>::empty() + data@ =~= data@);
    h.finalize_hex()
}

/// Whether a model file is ready: it exists and its digest is the
/// catalogue's.
pub fn model_file_ready(exists: bool, digest: Option<String>, expected_sha1: &str) -> (b: bool)
    ensures
        b == (exists && (digest matches Some(d) && d@ == expected_sha1@)),
{
    if !exists {
        return false;
    }
    match digest {
        Some(d) => {
            let x = chars_of(d.as_str());
            let y = chars_of(expected_sha1);
            chars_equal(x.as_slice(), y.as_slice())
        },
        None => false,
    }
}

} // verus!
