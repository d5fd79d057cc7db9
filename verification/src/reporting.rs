//! The runtime fingerprint of a benchmark report: the model file's SHA-256
//! digest in lowercase hexadecimal.
use vstd::prelude::*;
use sha2::Digest;
use crate::text::{hex_lower, to_hex_lower};

verus! {

/// What a report records of the software that produced it.
#[derive(Debug, Clone)]
pub struct RuntimeFingerprint {
    /// Lowercase hexadecimal SHA-256 digest of the model file.
    pub model_sha256: String,
    pub crate_version: String,
}

/// The SHA-256 digest of a byte string.
pub uninterp spec fn sha256(data: Seq<u8>) -> Seq<u8>;

/// Calls `sha2::Sha256::digest`. Trusted: the result is the SHA-256 digest
/// of `data` (named, not stated) and holds 32 bytes, the output size of
/// SHA-256.
#[verifier::external_body]
fn sha256_digest(data: &[u8]) -> (d: Vec<u8>)
    ensures
        d@ == sha256(data@),
        d@.len() == 32,
{
    sha2::Sha256::digest(data).to_vec()
}

/// The rendering of `bytes` in lowercase hexadecimal has two characters per
/// byte.
pub proof fn lemma_hex_length(bytes: Seq<u8>)
    ensures
        hex_lower(bytes).len() == 2 * bytes.len(),
    decreases bytes.len(),
{
    if bytes.len() > 0 {
        lemma_hex_length(bytes.drop_last());
    }
}

/// The fingerprint of a model file's contents: its SHA-256 digest as 64
/// lowercase hexadecimal characters.
pub fn model_sha256(model_bytes: &[u8]) -> (h: String)
    ensures
        h@ == hex_lower(sha256(model_bytes@)),
        h@.len() == 64,
{
    let digest = sha256_digest(model_bytes);
    let h = to_hex_lower(digest.as_slice());
    proof {
        lemma_hex_length(digest@);
    }
    h
}

} // verus!
