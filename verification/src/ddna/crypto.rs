//! The hash and signature primitives that fingerprints, identities and
//! integrity proofs are built on: BLAKE3, SHA3-512 and Ed25519.

use ed25519_dalek::{Signer, Verifier};
use sha3::Digest;
use vstd::prelude::*;

verus! {

/// BLAKE3 digest (32 bytes) of a byte string.
pub uninterp spec fn blake3_digest(data: Seq<u8>) -> Seq<u8>;

/// SHA3-512 digest (64 bytes) of a byte string.
pub uninterp spec fn sha3_512_digest(data: Seq<u8>) -> Seq<u8>;

/// Ed25519 public key derived from a 32-byte secret key.
pub uninterp spec fn ed25519_public_key(secret: Seq<u8>) -> Seq<u8>;

/// Ed25519 signature (RFC 8032, deterministic) of `msg` under `secret`.
pub uninterp spec fn ed25519_signature(secret: Seq<u8>, msg: Seq<u8>) -> Seq<u8>;

/// Whether `sig` is a valid Ed25519 signature of `msg` for the public key `public`.
pub uninterp spec fn ed25519_accepts(public: Seq<u8>, msg: Seq<u8>, sig: Seq<u8>) -> bool;

/// `blake3::hash`: the BLAKE3 digest of `data`.
#[verifier::external_body]
pub(crate) fn blake3_hash(data: &[u8]) -> (h: [u8; 32])
    ensures
        h@ == blake3_digest(data@),
{
    *blake3::hash(data).as_bytes()
}

/// `sha3::Sha3_512` over `data`: the SHA3-512 digest of `data`.
#[verifier::external_body]
pub(crate) fn sha3_512_hash(data: &[u8]) -> (h: [u8; 64])
    ensures
        h@ == sha3_512_digest(data@),
{
    let mut out = [0u8; 64];
    out.copy_from_slice(&sha3::Sha3_512::digest(data));
    out
}

/// `ed25519_dalek::SigningKey::from_bytes(secret).verifying_key().to_bytes()`:
/// the public key of a secret key.
#[verifier::external_body]
pub(crate) fn ed25519_public(secret: &[u8; 32]) -> (p: [u8; 32])
    ensures
        p@ == ed25519_public_key(secret@),
{
    ed25519_dalek::SigningKey::from_bytes(secret).verifying_key().to_bytes()
}

/// `ed25519_dalek::SigningKey::sign`: the signature of `msg` under `secret`.
/// The contract also claims what the signature scheme guarantees: the
/// signature verifies under the public key of `secret`.
#[verifier::external_body]
pub(crate) fn ed25519_sign(secret: &[u8; 32], msg: &[u8]) -> (sig: [u8; 64])
    ensures
        sig@ == ed25519_signature(secret@, msg@),
        ed25519_accepts(ed25519_public_key(secret@), msg@, sig@),
{
    ed25519_dalek::SigningKey::from_bytes(secret).sign(msg).to_bytes()
}

/// `ed25519_dalek::VerifyingKey::from_bytes` followed by `Verifier::verify`:
/// `Ok` exactly when `public` is a valid key and `sig` a valid signature of
/// `msg` under it. The text of the error is the library's and is not stated.
#[verifier::external_body]
pub(crate) fn ed25519_verify(public: &[u8; 32], msg: &[u8], sig: &[u8; 64]) -> (r: Result<(), String>)
    ensures
        r is Ok <==> ed25519_accepts(public@, msg@, sig@),
{
    let key = ed25519_dalek::VerifyingKey::from_bytes(public)
        .map_err(|e| format!("Chiave pubblica invalida: {e}"))?;
    key.verify(msg, &ed25519_dalek::Signature::from_bytes(sig))
        .map_err(|e| format!("Firma non valida: {e}"))
}

/// `ed25519_dalek::SigningKey::generate` with the operating system's random
/// source: a fresh secret key. Nothing is promised of its bytes.
#[verifier::external_body]
pub(crate) fn ed25519_random_secret() -> (s: [u8; 32]) {
    ed25519_dalek::SigningKey::generate(&mut rand::rngs::OsRng).to_bytes()
}

} // verus!
