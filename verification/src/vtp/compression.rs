//! Delta compression: only the differences between versions travel.

use vstd::prelude::*;
use super::VtpError;

verus! {

/// The zstd frame that `zstd::encode_all` produces for `data` at `level`.
pub uninterp spec fn zstd_frame(data: Seq<u8>, level: i32) -> Seq<u8>;

/// What `zstd::decode_all` gives for `frame`, `None` when it fails.
pub uninterp spec fn zstd_content(frame: Seq<u8>) -> Option<Seq<u8>>;

/// `zstd::encode_all(data, level)` at the valid level 3: the compressed
/// frame. Reading a slice and writing a `Vec` cannot fail, so the call
/// succeeds (its one failure, zstd being unable to allocate its context, is
/// running out of memory). The contract also claims that decoding the frame
/// gives `data` back.
#[verifier::external_body]
pub(crate) fn zstd_encode(data: &[u8], level: i32) -> (r: Result<Vec<u8>, String>)
    requires
        level == 3,
    ensures
        r is Ok,
        r matches Ok(f) ==> f@ == zstd_frame(data@, level) && zstd_content(f@) == Some(data@),
{
    zstd::encode_all(data, level).map_err(|e| format!("{e}"))
}

/// `zstd::decode_all(frame)`: the decompressed content, an error exactly
/// where the frame does not decode.
#[verifier::external_body]
pub(crate) fn zstd_decode(frame: &[u8]) -> (r: Result<Vec<u8>, String>)
    ensures
        match zstd_content(frame@) {
            Some(d) => r matches Ok(v) && v@ == d,
            None => r is Err,
        },
{
    zstd::decode_all(frame).map_err(|e| format!("{e}"))
}

/// Compresses data with zstd at level 3; it always succeeds.
pub fn compress(data: &[u8]) -> (r: Result<Vec<u8>, VtpError>)
    ensures
        r matches Ok(f) && f@ == zstd_frame(data@, 3) && zstd_content(f@) == Some(data@),
{
    match zstd_encode(data, 3) {
        Ok(f) => Ok(f),
        Err(msg) => {
            let mut m = String::from_str("Compressione fallita: ");
            m.append(msg.as_str());
            Err(VtpError::CompressionError(m))
        },
    }
}

/// Decompresses a zstd frame.
pub fn decompress(data: &[u8]) -> (r: Result<Vec<u8>, VtpError>)
    ensures
        match zstd_content(data@) {
            Some(d) => r matches Ok(v) && v@ == d,
            None => r matches Err(e) && e is CompressionError,
        },
{
    match zstd_decode(data) {
        Ok(v) => Ok(v),
        Err(msg) => {
            let mut m = String::from_str("Decompressione fallita: ");
            m.append(msg.as_str());
            Err(VtpError::CompressionError(m))
        },
    }
}

/// Bytewise exclusive or of two byte strings of one length.
pub open spec fn xor_bytes(a: Seq<u8>, b: Seq<u8>) -> Seq<u8>
    recommends
        a.len() == b.len(),
{
    Seq::new(a.len(), |i: int| a[i] ^ b[i])
}

fn xor_exec(a: &[u8], b: &[u8]) -> (r: Vec<u8>)
    requires
        a@.len() == b@.len(),
    ensures
        r@ == xor_bytes(a@, b@),
{
    let mut r: Vec<u8> = Vec::new();
    let mut i: usize = 0;
    while i < a.len()
        invariant
            a@.len() == b@.len(),
            i <= a@.len(),
            r@ == xor_bytes(a@, b@).take(i as int),
        decreases a@.len() - i,
    {
        r.push(a[i] ^ b[i]);
        i = i + 1;
        assert(r@ =~= xor_bytes(a@, b@).take(i as int));
    }
    assert(xor_bytes(a@, b@).take(i as int) =~= xor_bytes(a@, b@));
    r
}

/// The uncompressed delta from `old` to `new`: their bytewise XOR when the
/// lengths agree, otherwise `new` itself.
pub open spec fn raw_delta(old: Seq<u8>, new: Seq<u8>) -> Seq<u8> {
    if old.len() == new.len() {
        xor_bytes(old, new)
    } else {
        new
    }
}

/// The version that a decompressed delta gives from `base`: the bytewise
/// XOR when the lengths agree, otherwise the delta itself.
pub open spec fn patched(base: Seq<u8>, delta: Seq<u8>) -> Seq<u8> {
    if base.len() == delta.len() {
        xor_bytes(base, delta)
    } else {
        delta
    }
}

/// The compressed delta between an old and a new version (see `raw_delta`);
/// it always succeeds.
pub fn compute_delta(old: &[u8], new: &[u8]) -> (r: Result<Vec<u8>, VtpError>)
    ensures
        r matches Ok(f) && f@ == zstd_frame(raw_delta(old@, new@), 3) && zstd_content(f@) == Some(
            raw_delta(old@, new@),
        ),
{
    if old.len() == new.len() {
        let delta = xor_exec(old, new);
        compress(delta.as_slice())
    } else {
        compress(new)
    }
}

/// Applies a compressed delta to a base version (see `patched`).
pub fn apply_delta(base: &[u8], delta_compressed: &[u8]) -> (r: Result<Vec<u8>, VtpError>)
    ensures
        match zstd_content(delta_compressed@) {
            Some(d) => r matches Ok(v) && v@ == patched(base@, d),
            None => r matches Err(e) && e is CompressionError,
        },
{
    let delta = match decompress(delta_compressed) {
        Ok(d) => d,
        Err(e) => return Err(e),
    };
    if base.len() == delta.len() {
        Ok(xor_exec(base, delta.as_slice()))
    } else {
        Ok(delta)
    }
}

/// Applying the delta from `old` to `new` to `old` gives back `new`.
pub proof fn lemma_delta_roundtrip(old: Seq<u8>, new: Seq<u8>)
    ensures
        patched(old, raw_delta(old, new)) == new,
{
    if old.len() == new.len() {
        assert forall|i: int| 0 <= i < old.len() implies #[trigger] xor_bytes(old, xor_bytes(old, new))[i] == new[i] by {
            let a = old[i];
            let b = new[i];
            assert(a ^ (a ^ b) == b) by (bit_vector);
        }
        assert(patched(old, raw_delta(old, new)) =~= new);
    }
}

} // verus!
