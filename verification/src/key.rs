//! Cache keys: a digest of the source, and the name of the file that holds
//! the entry of a key.

use sha2::{Digest, Sha256};
use vstd::prelude::*;
use vstd::string::StringExecFns;
use vstd::utf8::encode_utf8;

verus! {

/// The directory that holds the cache, one file for each key.
pub const CACHE_DIR: &'static str = "cache";

/// The number of bytes in a key.
pub const KEY_LEN: usize = 32;

/// The SHA-256 digest of `data`.
pub uninterp spec fn sha256(data: Seq<u8>) -> Seq<u8>;

/// The base64 text of `data`, in the URL-safe alphabet, padded.
pub uninterp spec fn base64_url(data: Seq<u8>) -> Seq<char>;

/// The key of a program: the digest of its bytes.
pub open spec fn key_of(code: Seq<char>) -> Seq<u8> {
    sha256(encode_utf8(code))
}

/// The file name of the entry of `key`.
pub open spec fn entry_name(key: Seq<u8>) -> Seq<char> {
    base64_url(key) + ".bin"@
}

/// What a cache entry is found by. Two programs have one key only if their
/// digests collide.
#[derive(Debug, Clone, Copy, PartialEq, Eq)]
pub struct CacheKey {
    digest: [u8; 32],
}

impl View for CacheKey {
    type V = Seq<u8>;

    closed spec fn view(&self) -> Seq<u8> {
        self.digest@
    }
}

/// Calls `sha2::Sha256::digest`. Assumed: the digest depends on the data
/// alone.
#[verifier::external_body]
fn sha256_digest(data: &[u8]) -> (out: [u8; 32])
    ensures
        out@ == sha256(data@),
{
    Sha256::digest(data).into()
}

/// Calls `base64::encode_config` with `base64::URL_SAFE`. Assumed: the text
/// depends on the bytes alone.
#[verifier::external_body]
fn base64_url_encode(data: &[u8; 32]) -> (out: String)
    ensures
        out@ == base64_url(data@),
{
    base64::encode_config(data, base64::URL_SAFE)
}

/// The file name for an entry whose key reads `encoded` in base64.
pub fn file_name_from(encoded: String) -> (out: String)
    ensures
        out@ == encoded@ + ".bin"@,
{
    encoded.concat(".bin")
}

impl CacheKey {
    /// The key with the given digest.
    pub fn from_digest(digest: [u8; 32]) -> (out: CacheKey)
        ensures
            out@ == digest@,
    {
        CacheKey { digest }
    }

    /// The key of `code`.
    pub fn of(code: &str) -> (out: CacheKey)
        ensures
            out@ == key_of(code@),
    {
        CacheKey::from_digest(sha256_digest(code.as_bytes()))
    }

    /// The bytes of the key.
    pub fn digest(&self) -> (out: [u8; 32])
        ensures
            out@ == self@,
    {
        self.digest
    }

    /// Whether the two keys are the same.
    pub fn same_as(&self, other: &CacheKey) -> (out: bool)
        ensures
            out == (self@ == other@),
    {
        let mut i: usize = 0;
        while i < 32
            invariant
                i <= 32,
                forall|j: int| 0 <= j < i ==> self.digest@[j] == other.digest@[j],
            decreases 32 - i,
        {
            if self.digest[i] != other.digest[i] {
                return false;
            }
            i += 1;
        }
        assert(self.digest@ =~= other.digest@);
        true
    }

    /// The name of the file that holds the entry of this key.
    pub fn file_name(&self) -> (out: String)
        ensures
            out@ == entry_name(self@),
    {
        file_name_from(base64_url_encode(&self.digest))
    }
}

/// Keys have a fixed width: every key has [`KEY_LEN`] bytes, whatever the
/// length of the program.
pub proof fn law_key_has_fixed_width(key: CacheKey)
    ensures
        key@.len() == KEY_LEN,
{
}

} // verus!
