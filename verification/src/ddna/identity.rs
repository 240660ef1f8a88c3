//! Source identity: the producer's Ed25519 key and signature over the
//! fingerprint.

use vstd::prelude::*;
use crate::bytes::push_all;
use super::DdnaError;
use super::crypto::{
    ed25519_accepts, ed25519_public, ed25519_public_key, ed25519_random_secret, ed25519_sign,
    ed25519_signature, ed25519_verify,
};
use super::fingerprint::ContentFingerprint;

verus! {

/// Kind of producer identity.
#[derive(Debug, Clone, Copy, PartialEq, Eq, Structural)]
pub enum IdentityType {
    /// Verified institution.
    Institutional,
    /// Pseudonymous identity with accumulated reputation.
    Pseudonymous,
}

/// Bit pattern of the `f32` value 0.5, the reputation of a new identity.
pub const DEFAULT_REPUTATION_BITS: u32 = 0x3F00_0000;

/// Verified identity of a datum's producer.
///
/// The reputation score (0.0 - 1.0) is an `f32`; it is held here by its
/// IEEE-754 bit pattern, which is also the form that integrity hashing reads.
#[derive(Debug, Clone, Copy)]
pub struct SourceIdentity {
    /// Ed25519 public key.
    pub public_key: [u8; 32],
    /// Signature of the content fingerprint.
    pub signature: [u8; 64],
    /// Kind of identity.
    pub identity_type: IdentityType,
    /// Bit pattern of the `f32` reputation score.
    pub reputation_bits: u32,
}

/// Ed25519 key pair, held by its 32-byte secret key.
#[derive(Debug, Clone, Copy)]
pub struct KeyPair {
    secret: [u8; 32],
}

impl View for KeyPair {
    type V = Seq<u8>;

    /// The secret key bytes.
    closed spec fn view(&self) -> Seq<u8> {
        self.secret@
    }
}

impl KeyPair {
    /// A fresh random key pair.
    pub fn generate() -> (kp: KeyPair) {
        KeyPair { secret: ed25519_random_secret() }
    }

    /// The key pair of a raw 32-byte secret key.
    pub fn from_bytes(secret: &[u8; 32]) -> (kp: KeyPair)
        ensures
            kp@ == secret@,
    {
        KeyPair { secret: *secret }
    }

    /// The public key.
    pub fn public_key_bytes(&self) -> (p: [u8; 32])
        ensures
            p@ == ed25519_public_key(self@),
    {
        ed25519_public(&self.secret)
    }

    /// The secret key bytes (sensitive).
    pub fn secret_bytes(&self) -> (s: [u8; 32])
        ensures
            s@ == self@,
    {
        self.secret
    }

    /// Signs an arbitrary message.
    pub fn sign(&self, message: &[u8]) -> (sig: [u8; 64])
        ensures
            sig@ == ed25519_signature(self@, message@),
            ed25519_accepts(ed25519_public_key(self@), message@, sig@),
    {
        ed25519_sign(&self.secret, message)
    }
}

/// The message a producer signs: the BLAKE3 digest followed by the SHA3-512 digest.
pub open spec fn fingerprint_message(fp: ContentFingerprint) -> Seq<u8> {
    fp.blake3@ + fp.sha3_512@
}

fn fingerprint_message_exec(fp: &ContentFingerprint) -> (m: Vec<u8>)
    ensures
        m@ == fingerprint_message(*fp),
{
    let mut m: Vec<u8> = Vec::with_capacity(96);
    push_all(&mut m, &fp.blake3);
    push_all(&mut m, &fp.sha3_512);
    m
}

/// `s` is the identity that signing `fp` with the secret key `secret` gives.
pub open spec fn is_signed_identity(s: SourceIdentity, fp: ContentFingerprint, secret: Seq<u8>) -> bool {
    &&& s.public_key@ == ed25519_public_key(secret)
    &&& s.signature@ == ed25519_signature(secret, fingerprint_message(fp))
    &&& s.identity_type == IdentityType::Pseudonymous
    &&& s.reputation_bits == DEFAULT_REPUTATION_BITS
}

/// The identity's signature is valid for `fp`.
pub open spec fn signature_valid(s: SourceIdentity, fp: ContentFingerprint) -> bool {
    ed25519_accepts(s.public_key@, fingerprint_message(fp), s.signature@)
}

impl SourceIdentity {
    /// Signs a fingerprint; the new identity is pseudonymous with reputation 0.5.
    pub fn sign(fingerprint: &ContentFingerprint, keypair: &KeyPair) -> (r: Result<SourceIdentity, DdnaError>)
        ensures
            r matches Ok(s) && is_signed_identity(s, *fingerprint, keypair@) && signature_valid(s, *fingerprint),
    {
        let message = fingerprint_message_exec(fingerprint);
        let signature = keypair.sign(message.as_slice());
        Ok(SourceIdentity {
            public_key: keypair.public_key_bytes(),
            signature,
            identity_type: IdentityType::Pseudonymous,
            reputation_bits: DEFAULT_REPUTATION_BITS,
        })
    }

    /// Checks the signature against the fingerprint and the public key.
    pub fn verify(&self, fingerprint: &ContentFingerprint) -> (r: Result<bool, DdnaError>)
        ensures
            r is Ok <==> signature_valid(*self, *fingerprint),
            r is Ok ==> r == Ok::<bool, DdnaError>(true),
            r matches Err(e) ==> e is InvalidSignature,
    {
        let message = fingerprint_message_exec(fingerprint);
        match ed25519_verify(&self.public_key, message.as_slice(), &self.signature) {
            Ok(()) => Ok(true),
            Err(msg) => Err(DdnaError::InvalidSignature(msg)),
        }
    }
}

} // verus!
