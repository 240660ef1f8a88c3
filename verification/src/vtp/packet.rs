//! Packets of the transport protocol, with a digest of their payload.

use vstd::prelude::*;
use crate::clock::now_micros;
use crate::ddna::crypto::{blake3_digest, blake3_hash};
use crate::bytes::bytes_eq;
use super::priority::SemanticPriority;

verus! {

/// `uuid::Uuid::new_v4().as_u128()`: a random version-4 UUID. Nothing is
/// promised of its bits.
#[verifier::external_body]
fn random_uuid() -> (id: u128) {
    uuid::Uuid::new_v4().as_u128()
}

/// A packet: the unit of transport between nodes.
#[derive(Debug, Clone)]
pub struct VtpPacket {
    /// Unique id (a UUID as 128 bits).
    pub id: u128,
    /// Protocol version.
    pub version: u8,
    /// Semantic priority of the payload.
    pub priority: SemanticPriority,
    /// Source node id.
    pub source_node: [u8; 32],
    /// Destination node id, `None` for a broadcast.
    pub dest_node: Option<[u8; 32]>,
    /// Creation time in microseconds.
    pub created_at_us: i64,
    /// Remaining hops.
    pub ttl: u8,
    /// Whether the payload is a compressed delta.
    pub is_delta: bool,
    /// BLAKE3 digest of the payload.
    pub payload_hash: [u8; 32],
    /// Payload (datum and Data DNA, possibly compressed).
    pub payload: Vec<u8>,
}

impl VtpPacket {
    /// A new packet of version 1 with 16 hops to live, a fresh random id,
    /// the current time and the digest of its payload.
    pub fn new(source_node: [u8; 32], dest_node: Option<[u8; 32]>, priority: SemanticPriority, payload: Vec<u8>) -> (p:
        VtpPacket)
        ensures
            p.version == 1,
            p.ttl == 16,
            !p.is_delta,
            p.priority == priority,
            p.source_node == source_node,
            p.dest_node == dest_node,
            p.payload@ == payload@,
            p.payload_hash@ == blake3_digest(payload@),
    {
        let payload_hash = blake3_hash(payload.as_slice());
        VtpPacket {
            id: random_uuid(),
            version: 1,
            priority,
            source_node,
            dest_node,
            created_at_us: now_micros(),
            ttl: 16,
            is_delta: false,
            payload_hash,
            payload,
        }
    }

    /// Total size in bytes: a fixed 128-byte header plus the payload.
    pub fn size(&self) -> (n: usize)
        requires
            self.payload@.len() + 128 <= usize::MAX,
        ensures
            n == 128 + self.payload@.len(),
    {
        128 + self.payload.len()
    }

    /// Whether the payload still has the recorded digest.
    pub fn verify_payload(&self) -> (ok: bool)
        ensures
            ok == (self.payload_hash@ == blake3_digest(self.payload@)),
    {
        let h = blake3_hash(self.payload.as_slice());
        let ok = bytes_eq(&h, &self.payload_hash);
        proof {
            if ok {
                assert(h@ =~= self.payload_hash@);
            }
        }
        ok
    }
}

} // verus!
