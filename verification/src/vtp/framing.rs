//! Framing of node messages on a stream: a 4-byte big-endian length, then
//! the message bytes.

use vstd::prelude::*;

verus! {

/// Largest accepted message: 10 MB.
pub const MAX_MSG_SIZE: usize = 10_485_760;

/// Big-endian bytes of a 32-bit length.
pub open spec fn be_bytes(x: u32) -> Seq<u8> {
    seq![(x >> 24u32) as u8, (x >> 16u32) as u8, (x >> 8u32) as u8, x as u8]
}

/// The 32-bit value of four big-endian bytes.
pub open spec fn be_value(b0: u8, b1: u8, b2: u8, b3: u8) -> u32 {
    ((b0 as u32) << 24u32) | ((b1 as u32) << 16u32) | ((b2 as u32) << 8u32) | (b3 as u32)
}

/// The frame of a message: its length truncated to 32 bits, big-endian,
/// followed by the message.
pub fn frame_message(payload: &[u8]) -> (r: Vec<u8>)
    ensures
        r@ == be_bytes(payload@.len() as u32) + payload@,
{
    let n = payload.len();
    let len: u32 = #[verifier::truncate] (n as u32);
    let mut r: Vec<u8> = Vec::new();
    r.push(#[verifier::truncate] ((len >> 24u32) as u8));
    r.push(#[verifier::truncate] ((len >> 16u32) as u8));
    r.push(#[verifier::truncate] ((len >> 8u32) as u8));
    r.push(#[verifier::truncate] (len as u8));
    let mut i: usize = 0;
    while i < n
        invariant
            n == payload@.len(),
            i <= n,
            r@ == be_bytes(len) + payload@.take(i as int),
        decreases n - i,
    {
        r.push(payload[i]);
        i = i + 1;
        assert(r@ =~= be_bytes(len) + payload@.take(i as int));
    }
    assert(payload@.take(i as int) =~= payload@);
    r
}

/// The message length announced by a frame header, or `None` when it
/// exceeds `MAX_MSG_SIZE`.
pub fn frame_length(header: &[u8; 4]) -> (r: Option<usize>)
    ensures
        be_value(header@[0], header@[1], header@[2], header@[3]) as int <= MAX_MSG_SIZE ==> r == Some(
            be_value(header@[0], header@[1], header@[2], header@[3]) as usize,
        ),
        be_value(header@[0], header@[1], header@[2], header@[3]) as int > MAX_MSG_SIZE ==> r is None,
{
    let v: u32 = ((header[0] as u32) << 24u32) | ((header[1] as u32) << 16u32) | ((header[2] as u32) << 8u32) | (
    header[3] as u32);
    if v as usize > MAX_MSG_SIZE {
        None
    } else {
        Some(v as usize)
    }
}

/// The header of a frame announces the length of the message it carries,
/// for every message of at most `MAX_MSG_SIZE` bytes.
pub proof fn lemma_frame_roundtrip(n: u32)
    ensures
        be_value(be_bytes(n)[0], be_bytes(n)[1], be_bytes(n)[2], be_bytes(n)[3]) == n,
{
    assert(((((n >> 24u32) as u8) as u32) << 24u32) | ((((n >> 16u32) as u8) as u32) << 16u32) | ((((n >> 8u32) as u8)
        as u32) << 8u32) | (((n as u8) as u32)) == n) by (bit_vector);
}

} // verus!
