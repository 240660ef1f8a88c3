//! Content fingerprint: BLAKE3 and SHA3-512 digests of the content.

use vstd::prelude::*;
use crate::bytes::{bytes_eq, hex_encode, hex_lower};
use super::crypto::{blake3_digest, blake3_hash, sha3_512_digest, sha3_512_hash};

verus! {

/// Fingerprint of a content: two independent digests and the content size.
#[derive(Debug, Clone, Copy, PartialEq, Eq)]
pub struct ContentFingerprint {
    /// BLAKE3 digest, used for lookups and as the datum's id.
    pub blake3: [u8; 32],
    /// SHA3-512 digest, used for cryptographic verification.
    pub sha3_512: [u8; 64],
    /// Size of the content in bytes.
    pub content_size: u64,
}

/// `fp` is the fingerprint of `content`.
pub open spec fn is_fingerprint_of(fp: ContentFingerprint, content: Seq<u8>) -> bool {
    &&& fp.blake3@ == blake3_digest(content)
    &&& fp.sha3_512@ == sha3_512_digest(content)
    &&& fp.content_size == content.len()
}

/// Both digests of `fp` are those of `content`.
pub open spec fn digests_match(fp: ContentFingerprint, content: Seq<u8>) -> bool {
    fp.blake3@ == blake3_digest(content) && fp.sha3_512@ == sha3_512_digest(content)
}

impl ContentFingerprint {
    /// Computes the fingerprint of a content.
    pub fn compute(content: &[u8]) -> (fp: ContentFingerprint)
        ensures
            is_fingerprint_of(fp, content@),
    {
        ContentFingerprint {
            blake3: blake3_hash(content),
            sha3_512: sha3_512_hash(content),
            content_size: content.len() as u64,
        }
    }

    /// Whether `content` has the digests recorded in this fingerprint.
    pub fn matches(&self, content: &[u8]) -> (r: bool)
        ensures
            r == digests_match(*self, content@),
    {
        let computed = Self::compute(content);
        bytes_eq(&self.blake3, &computed.blake3) && bytes_eq(&self.sha3_512, &computed.sha3_512)
    }

    /// The BLAKE3 digest as lowercase hex (the datum's id).
    pub fn id_hex(&self) -> (s: String)
        ensures
            s@ == hex_lower(self.blake3@),
    {
        hex_encode(&self.blake3)
    }
}

/// A fingerprint always matches the content it was computed from.
pub proof fn lemma_fingerprint_matches_own_content(fp: ContentFingerprint, content: Seq<u8>)
    requires
        is_fingerprint_of(fp, content),
    ensures
        digests_match(fp, content),
{
}

} // verus!
