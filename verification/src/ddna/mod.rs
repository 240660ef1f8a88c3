//! Data DNA: the cryptographic identity that travels with every datum.
//! It certifies authenticity (fingerprint), provenance (signed source
//! identity), time (temporal proof), chain of custody, meaning (semantic
//! vector) and its own integrity (a digest over all of it).

pub mod crypto;
pub mod custody;
pub mod fingerprint;
pub mod identity;
pub mod integrity;
pub mod semantic;
pub mod temporal;

use vstd::prelude::*;
use crate::bytes::{bytes_eq, hex_encode, hex_lower};
use crate::clock::now_micros;
use self::crypto::{blake3_digest, ed25519_public_key};
use self::custody::{chain_valid, is_entry_for, CustodyAction, CustodyEntry};
use self::fingerprint::{is_fingerprint_of, ContentFingerprint};
use self::identity::{is_signed_identity, signature_valid, KeyPair, SourceIdentity};
use self::integrity::{compute_integrity_hash, expected_integrity};
use self::semantic::SemanticVector;
use self::temporal::{plausible, too_new, ClockSource, TemporalProof};

verus! {

/// Errors of the Data DNA module.
#[derive(Debug)]
pub enum DdnaError {
    /// Invalid cryptographic signature.
    InvalidSignature(String),
    /// The content's digest differs from the recorded one.
    FingerprintMismatch {
        /// Recorded BLAKE3 digest (hex).
        expected: String,
        /// Digest of the content at hand (hex).
        got: String,
    },
    /// Implausible timestamp.
    InvalidTimestamp(String),
    /// Broken chain of custody.
    InvalidCustody(String),
    /// (De)serialisation failure.
    SerializationError(String),
    /// The integrity hash does not match the Data DNA.
    IntegrityViolation,
}

/// Current version of the Data DNA protocol.
pub const DDNA_VERSION: u8 = 1;

/// The complete Data DNA of a datum.
#[derive(Debug, Clone)]
pub struct DataDna {
    /// Protocol version.
    pub version: u8,
    /// Fingerprint of the content.
    pub fingerprint: ContentFingerprint,
    /// Signed identity of the producer.
    pub source: SourceIdentity,
    /// Time of creation.
    pub temporal: TemporalProof,
    /// Chain of custody (every node that handled the datum).
    pub custody_chain: Vec<CustodyEntry>,
    /// Semantic vector, if computed.
    pub semantic_vector: Option<SemanticVector>,
    /// Digest of the whole Data DNA.
    pub integrity_hash: [u8; 32],
}

/// `d` is the Data DNA that `create` makes for `content` with the key
/// `secret`, stamped `temporal_us` and with its creation entry at `custody_us`.
pub open spec fn is_created(d: DataDna, content: Seq<u8>, secret: Seq<u8>, temporal_us: i64, custody_us: i64) -> bool {
    &&& d.version == DDNA_VERSION
    &&& is_fingerprint_of(d.fingerprint, content)
    &&& is_signed_identity(d.source, d.fingerprint, secret)
    &&& signature_valid(d.source, d.fingerprint)
    &&& d.temporal.timestamp_us == temporal_us
    &&& d.temporal.source_clock == ClockSource::System
    &&& d.temporal.precision_us == 1_000
    &&& d.custody_chain@.len() == 1
    &&& is_entry_for(d.custody_chain@[0], ed25519_public_key(secret), CustodyAction::Created, secret, custody_us)
    &&& d.semantic_vector is None
    &&& d.integrity_hash@ == expected_integrity(d)
}

/// Every check of `verify` passes on `d` at time `now_us`.
pub open spec fn valid_at(d: DataDna, now_us: i64) -> bool {
    &&& signature_valid(d.source, d.fingerprint)
    &&& plausible(d.temporal.timestamp_us, now_us)
    &&& chain_valid(d.custody_chain@)
    &&& d.integrity_hash@ == expected_integrity(d)
}

/// `d2` is `d1` with its other fields unchanged.
pub open spec fn same_header(d1: DataDna, d2: DataDna) -> bool {
    &&& d2.version == d1.version
    &&& d2.fingerprint == d1.fingerprint
    &&& d2.source == d1.source
    &&& d2.temporal == d1.temporal
}

/// What checking `d` at time `now_us` answers: `Ok(true)` when it is
/// valid then; otherwise the error of the first failing check, in the order
/// signature, timestamp, chain of custody, integrity hash.
pub open spec fn verified_at(d: DataDna, now_us: i64, r: Result<bool, DdnaError>) -> bool {
    &&& (r is Ok <==> valid_at(d, now_us))
    &&& (r is Ok ==> r == Ok::<bool, DdnaError>(true))
    &&& (r matches Err(e) ==> {
        if !signature_valid(d.source, d.fingerprint) {
            e is InvalidSignature
        } else if !plausible(d.temporal.timestamp_us, now_us) {
            e is InvalidTimestamp
        } else if !chain_valid(d.custody_chain@) {
            e is InvalidCustody
        } else {
            e is IntegrityViolation
        }
    })
}

impl DataDna {
    /// Creates the Data DNA of `content`, with the temporal proof stamped
    /// `temporal_us` and the creation entry stamped `custody_us`.
    pub fn create_at(content: &[u8], keypair: &KeyPair, temporal_us: i64, custody_us: i64) -> (r: Result<
        DataDna,
        DdnaError,
    >)
        ensures
            r matches Ok(d) && is_created(d, content@, keypair@, temporal_us, custody_us),
    {
        let fp = ContentFingerprint::compute(content);
        let source = match SourceIdentity::sign(&fp, keypair) {
            Ok(s) => s,
            Err(e) => return Err(e),
        };
        let temporal = TemporalProof::with_timestamp(temporal_us, ClockSource::System, 1_000);
        let public = keypair.public_key_bytes();
        let first = match CustodyEntry::new_at(&public, CustodyAction::Created, keypair, custody_us) {
            Ok(e) => e,
            Err(e) => return Err(e),
        };
        let mut chain: Vec<CustodyEntry> = Vec::new();
        chain.push(first);
        let mut ddna = DataDna {
            version: DDNA_VERSION,
            fingerprint: fp,
            source,
            temporal,
            custody_chain: chain,
            semantic_vector: None,
            integrity_hash: [0u8; 32],
        };
        let h = match compute_integrity_hash(&ddna) {
            Ok(h) => h,
            Err(e) => return Err(e),
        };
        proof {
            assert(integrity::integrity_message(ddna) == integrity::integrity_message(
                DataDna { integrity_hash: h, ..ddna },
            ));
        }
        ddna.integrity_hash = h;
        Ok(ddna)
    }

    /// Creates the Data DNA of `content`, stamped with the system clock.
    pub fn create(content: &[u8], keypair: &KeyPair) -> (r: Result<DataDna, DdnaError>)
        ensures
            r matches Ok(d) && is_created(d, content@, keypair@, d.temporal.timestamp_us, d.custody_chain@[0].timestamp_us),
    {
        let t = now_micros();
        let c = now_micros();
        Self::create_at(content, keypair, t, c)
    }

    /// Checks the Data DNA at time `now_us`, in this order: the producer's
    /// signature, the plausibility of the timestamp, the chain of custody and
    /// the integrity hash. The first failing check gives the error.
    pub fn verify_at(&self, now_us: i64) -> (r: Result<bool, DdnaError>)
        ensures
            verified_at(*self, now_us, r),
    {
        match self.source.verify(&self.fingerprint) {
            Ok(_) => {},
            Err(e) => return Err(e),
        }
        match self.temporal.verify_at(now_us) {
            Ok(_) => {},
            Err(e) => return Err(e),
        }
        match custody::verify_chain(self.custody_chain.as_slice()) {
            Ok(()) => {},
            Err(e) => return Err(e),
        }
        let expected = match compute_integrity_hash(self) {
            Ok(h) => h,
            Err(e) => return Err(e),
        };
        if !bytes_eq(&self.integrity_hash, &expected) {
            return Err(DdnaError::IntegrityViolation);
        }
        proof {
            assert(self.integrity_hash@ =~= expected@);
        }
        Ok(true)
    }

    /// Checks the Data DNA against the system clock (see `verify_at`).
    pub fn verify(&self) -> (r: Result<bool, DdnaError>)
        ensures
            exists|now_us: i64| verified_at(*self, now_us, r),
    {
        self.verify_at(now_micros())
    }

    /// Checks that the Data DNA belongs to `content` (by its BLAKE3 digest).
    pub fn verify_content(&self, content: &[u8]) -> (r: Result<bool, DdnaError>)
        ensures
            r is Ok <==> self.fingerprint.blake3@ == blake3_digest(content@),
            r is Ok ==> r == Ok::<bool, DdnaError>(true),
            r matches Err(e) ==> e matches DdnaError::FingerprintMismatch { expected, got } && expected@ == hex_lower(
                self.fingerprint.blake3@,
            ) && got@ == hex_lower(blake3_digest(content@)),
    {
        let computed = ContentFingerprint::compute(content);
        if !bytes_eq(&self.fingerprint.blake3, &computed.blake3) {
            return Err(
                DdnaError::FingerprintMismatch {
                    expected: hex_encode(&self.fingerprint.blake3),
                    got: hex_encode(&computed.blake3),
                },
            );
        }
        proof {
            assert(self.fingerprint.blake3@ =~= computed.blake3@);
        }
        Ok(true)
    }

    /// Appends a custody entry stamped `timestamp_us` and recomputes the
    /// integrity hash.
    pub fn add_custody_at(&mut self, node_id: &[u8; 32], action: CustodyAction, keypair: &KeyPair, timestamp_us: i64) -> (r:
        Result<(), DdnaError>)
        ensures
            r is Ok,
            same_header(*old(self), *final(self)),
            final(self).semantic_vector == old(self).semantic_vector,
            final(self).custody_chain@.len() == old(self).custody_chain@.len() + 1,
            final(self).custody_chain@.drop_last() == old(self).custody_chain@,
            is_entry_for(final(self).custody_chain@.last(), node_id@, action, keypair@, timestamp_us),
            final(self).integrity_hash@ == expected_integrity(*final(self)),
    {
        let entry = match CustodyEntry::new_at(node_id, action, keypair, timestamp_us) {
            Ok(e) => e,
            Err(e) => return Err(e),
        };
        self.custody_chain.push(entry);
        self.refresh_integrity()
    }

    /// Appends a custody entry stamped with the system clock (see `add_custody_at`).
    pub fn add_custody(&mut self, node_id: &[u8; 32], action: CustodyAction, keypair: &KeyPair) -> (r: Result<(), DdnaError>)
        ensures
            r is Ok,
            same_header(*old(self), *final(self)),
            final(self).semantic_vector == old(self).semantic_vector,
            final(self).custody_chain@.len() == old(self).custody_chain@.len() + 1,
            final(self).custody_chain@.drop_last() == old(self).custody_chain@,
            is_entry_for(
                final(self).custody_chain@.last(),
                node_id@,
                action,
                keypair@,
                final(self).custody_chain@.last().timestamp_us,
            ),
            final(self).integrity_hash@ == expected_integrity(*final(self)),
    {
        self.add_custody_at(node_id, action, keypair, now_micros())
    }

    /// Sets the semantic vector and recomputes the integrity hash.
    pub fn set_semantic_vector(&mut self, vector: SemanticVector) -> (r: Result<(), DdnaError>)
        ensures
            r is Ok,
            same_header(*old(self), *final(self)),
            final(self).custody_chain@ == old(self).custody_chain@,
            final(self).semantic_vector == Some(vector),
            final(self).integrity_hash@ == expected_integrity(*final(self)),
    {
        self.semantic_vector = Some(vector);
        self.refresh_integrity()
    }

    fn refresh_integrity(&mut self) -> (r: Result<(), DdnaError>)
        ensures
            r is Ok,
            same_header(*old(self), *final(self)),
            final(self).custody_chain@ == old(self).custody_chain@,
            final(self).semantic_vector == old(self).semantic_vector,
            final(self).integrity_hash@ == expected_integrity(*final(self)),
    {
        let h = match compute_integrity_hash(self) {
            Ok(h) => h,
            Err(e) => return Err(e),
        };
        proof {
            assert(integrity::integrity_message(*self) == integrity::integrity_message(
                DataDna { integrity_hash: h, ..*self },
            ));
        }
        self.integrity_hash = h;
        Ok(())
    }

    /// The datum's unique id: its BLAKE3 digest in lowercase hex.
    pub fn id(&self) -> (s: String)
        ensures
            s@ == hex_lower(self.fingerprint.blake3@),
    {
        hex_encode(&self.fingerprint.blake3)
    }
}

/// A freshly created Data DNA passes every check at any time at which its
/// timestamp is plausible.
pub proof fn lemma_created_verifies(d: DataDna, content: Seq<u8>, secret: Seq<u8>, temporal_us: i64, custody_us: i64, now_us: i64)
    requires
        is_created(d, content, secret, temporal_us, custody_us),
        plausible(temporal_us, now_us),
    ensures
        valid_at(d, now_us),
{
}

/// Appending a custody entry whose timestamp is not earlier than the last
/// one keeps a valid Data DNA valid.
pub proof fn lemma_custody_append_keeps_valid(d1: DataDna, d2: DataDna, now_us: i64)
    requires
        valid_at(d1, now_us),
        same_header(d1, d2),
        d2.custody_chain@.len() == d1.custody_chain@.len() + 1,
        d2.custody_chain@.drop_last() == d1.custody_chain@,
        d1.custody_chain@.last().timestamp_us <= d2.custody_chain@.last().timestamp_us,
        d2.integrity_hash@ == expected_integrity(d2),
    ensures
        valid_at(d2, now_us),
{
    let c1 = d1.custody_chain@;
    let c2 = d2.custody_chain@;
    assert forall|i: int| 0 <= i < c2.len() - 1 implies c2[i].timestamp_us <= #[trigger] c2[i + 1].timestamp_us by {
        assert(c2.drop_last()[i] == c2[i]);
        if i + 1 < c1.len() {
            assert(c2.drop_last()[i + 1] == c2[i + 1]);
            assert(c1[i].timestamp_us <= c1[i + 1].timestamp_us);
        }
    }
    assert(c2.drop_last()[0] == c2[0]);
}

/// A Data DNA verifies against its own content and against no content with
/// another BLAKE3 digest.
pub proof fn lemma_created_matches_content(d: DataDna, content: Seq<u8>, secret: Seq<u8>, temporal_us: i64, custody_us: i64)
    requires
        is_created(d, content, secret, temporal_us, custody_us),
    ensures
        d.fingerprint.blake3@ == blake3_digest(content),
{
}

} // verus!

verus! {

/// The message of a Data DNA error, as its display form writes it.
pub open spec fn ddna_error_message(e: DdnaError) -> Seq<char> {
    match e {
        DdnaError::InvalidSignature(m) => "Firma non valida: "@ + m@,
        DdnaError::FingerprintMismatch { expected, got } => "Fingerprint non corrisponde: atteso "@ + expected@
            + ", ottenuto "@ + got@,
        DdnaError::InvalidTimestamp(m) => "Timestamp non valido: "@ + m@,
        DdnaError::InvalidCustody(m) => "Catena di custodia non valida: "@ + m@,
        DdnaError::SerializationError(m) => "Errore di serializzazione: "@ + m@,
        DdnaError::IntegrityViolation => "Integrità del dDNA compromessa"@,
    }
}

impl DdnaError {
    /// The error's message (see `ddna_error_message`).
    pub fn to_string(&self) -> (s: String)
        ensures
            s@ == ddna_error_message(*self),
    {
        match self {
            DdnaError::InvalidSignature(m) => {
                let mut s = String::from_str("Firma non valida: ");
                s.append(m.as_str());
                s
            },
            DdnaError::FingerprintMismatch { expected, got } => {
                let mut s = String::from_str("Fingerprint non corrisponde: atteso ");
                s.append(expected.as_str());
                s.append(", ottenuto ");
                s.append(got.as_str());
                s
            },
            DdnaError::InvalidTimestamp(m) => {
                let mut s = String::from_str("Timestamp non valido: ");
                s.append(m.as_str());
                s
            },
            DdnaError::InvalidCustody(m) => {
                let mut s = String::from_str("Catena di custodia non valida: ");
                s.append(m.as_str());
                s
            },
            DdnaError::SerializationError(m) => {
                let mut s = String::from_str("Errore di serializzazione: ");
                s.append(m.as_str());
                s
            },
            DdnaError::IntegrityViolation => String::from_str("Integrità del dDNA compromessa"),
        }
    }
}

} // verus!
