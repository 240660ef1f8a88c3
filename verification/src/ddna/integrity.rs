//! Integrity proof: a BLAKE3 digest over every field of the Data DNA.

use vstd::prelude::*;
use vstd::utf8::encode_utf8;
use crate::bytes::{le_i64, le_u16, le_u32, le_u64, push_all, push_le_i64, push_le_u16, push_le_u32, push_le_u64};
use super::{DataDna, DdnaError};
use super::crypto::{blake3_digest, blake3_hash};
use super::custody::CustodyEntry;
use super::semantic::SemanticVector;

verus! {

/// Bytes that each custody entry contributes: node id, timestamp, signature.
pub open spec fn custody_bytes(chain: Seq<CustodyEntry>) -> Seq<u8>
    decreases chain.len(),
{
    if chain.len() == 0 {
        Seq::empty()
    } else {
        custody_bytes(chain.drop_last()) + chain.last().node_id@ + le_i64(chain.last().timestamp_us)
            + chain.last().signature@
    }
}

/// Little-endian bytes of each half-precision value.
pub open spec fn halves_bytes(v: Seq<u16>) -> Seq<u8>
    decreases v.len(),
{
    if v.len() == 0 {
        Seq::empty()
    } else {
        halves_bytes(v.drop_last()) + le_u16(v.last())
    }
}

/// Bytes of the semantic vector, if any: model id (UTF-8), dimensions, values.
pub open spec fn semantic_bytes(sv: Option<SemanticVector>) -> Seq<u8> {
    match sv {
        None => Seq::empty(),
        Some(v) => encode_utf8(v.model_id@) + le_u16(v.dimensions) + halves_bytes(v.values@),
    }
}

/// The bytes the integrity hash covers: every field except the hash itself
/// (the custody actions are covered through their signatures only).
pub open spec fn integrity_message(d: DataDna) -> Seq<u8> {
    seq![d.version] + d.fingerprint.blake3@ + d.fingerprint.sha3_512@ + le_u64(d.fingerprint.content_size)
        + d.source.public_key@ + d.source.signature@ + le_u32(d.source.reputation_bits)
        + le_i64(d.temporal.timestamp_us) + le_u32(d.temporal.precision_us)
        + custody_bytes(d.custody_chain@) + semantic_bytes(d.semantic_vector)
}

/// The integrity hash that `d` should carry.
pub open spec fn expected_integrity(d: DataDna) -> Seq<u8> {
    blake3_digest(integrity_message(d))
}

fn push_custody(out: &mut Vec<u8>, chain: &Vec<CustodyEntry>)
    ensures
        final(out)@ == old(out)@ + custody_bytes(chain@),
{
    let ghost start = out@;
    let mut i: usize = 0;
    while i < chain.len()
        invariant
            i <= chain@.len(),
            out@ == start + custody_bytes(chain@.take(i as int)),
        decreases chain@.len() - i,
    {
        let e = &chain[i];
        push_all(out, &e.node_id);
        push_le_i64(out, e.timestamp_us);
        push_all(out, &e.signature);
        assert(chain@.take(i + 1).drop_last() =~= chain@.take(i as int));
        i = i + 1;
        assert(out@ =~= start + custody_bytes(chain@.take(i as int)));
    }
    assert(chain@.take(i as int) =~= chain@);
}

fn push_semantic(out: &mut Vec<u8>, sv: &Option<SemanticVector>)
    ensures
        final(out)@ == old(out)@ + semantic_bytes(*sv),
{
    match sv {
        None => {
            assert(out@ =~= out@ + semantic_bytes(*sv));
        },
        Some(v) => {
            let ghost start = out@;
            push_all(out, v.model_id.as_str().as_bytes());
            push_le_u16(out, v.dimensions);
            let ghost mid = out@;
            let mut i: usize = 0;
            while i < v.values.len()
                invariant
                    i <= v.values@.len(),
                    out@ == mid + halves_bytes(v.values@.take(i as int)),
                decreases v.values@.len() - i,
            {
                push_le_u16(out, v.values[i]);
                assert(v.values@.take(i + 1).drop_last() =~= v.values@.take(i as int));
                i = i + 1;
                assert(out@ =~= mid + halves_bytes(v.values@.take(i as int)));
            }
            assert(v.values@.take(i as int) =~= v.values@);
            assert(out@ =~= start + semantic_bytes(*sv));
        },
    }
}

/// The bytes covered by the integrity hash of `d`.
pub fn integrity_message_exec(d: &DataDna) -> (m: Vec<u8>)
    ensures
        m@ == integrity_message(*d),
{
    let mut m: Vec<u8> = Vec::new();
    m.push(d.version);
    push_all(&mut m, &d.fingerprint.blake3);
    push_all(&mut m, &d.fingerprint.sha3_512);
    push_le_u64(&mut m, d.fingerprint.content_size);
    push_all(&mut m, &d.source.public_key);
    push_all(&mut m, &d.source.signature);
    push_le_u32(&mut m, d.source.reputation_bits);
    push_le_i64(&mut m, d.temporal.timestamp_us);
    push_le_u32(&mut m, d.temporal.precision_us);
    push_custody(&mut m, &d.custody_chain);
    push_semantic(&mut m, &d.semantic_vector);
    assert(m@ =~= integrity_message(*d));
    m
}

/// Computes the integrity hash of a Data DNA (BLAKE3 over `integrity_message`).
pub fn compute_integrity_hash(d: &DataDna) -> (r: Result<[u8; 32], DdnaError>)
    ensures
        r matches Ok(h) && h@ == expected_integrity(*d),
{
    let m = integrity_message_exec(d);
    Ok(blake3_hash(m.as_slice()))
}

} // verus!
