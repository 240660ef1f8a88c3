//! Encoding of text for URL query strings.

use vstd::prelude::*;
use vstd::utf8::encode_utf8;
use crate::text::push_char;

verus! {

/// Bytes passed through unchanged: ASCII letters, digits, `-`, `_`, `.`, `~`.
pub open spec fn unreserved(b: u8) -> bool {
    (0x41 <= b <= 0x5A) || (0x61 <= b <= 0x7A) || (0x30 <= b <= 0x39) || b == 0x2D || b == 0x5F || b == 0x2E || b
        == 0x7E
}

/// Uppercase hexadecimal digit of a nibble.
pub open spec fn hex_upper(n: u8) -> char {
    if n < 10 {
        (0x30 + n) as char
    } else {
        (0x41 + (n - 10)) as char
    }
}

/// The encoding of one byte: itself if unreserved, `+` for a space,
/// otherwise `%` and two uppercase hex digits.
pub open spec fn encode_byte(b: u8) -> Seq<char> {
    if unreserved(b) {
        seq![b as char]
    } else if b == 0x20 {
        seq!['+']
    } else {
        seq!['%', hex_upper(b / 16), hex_upper(b % 16)]
    }
}

/// The encoding of a byte string, byte by byte.
pub open spec fn encode_bytes(bs: Seq<u8>) -> Seq<char>
    decreases bs.len(),
{
    if bs.len() == 0 {
        Seq::empty()
    } else {
        encode_bytes(bs.drop_last()) + encode_byte(bs.last())
    }
}

fn hex_upper_exec(n: u8) -> (c: char)
    requires
        n < 16,
    ensures
        c == hex_upper(n),
{
    if n < 10 {
        (0x30u8 + n) as char
    } else {
        (0x41u8 + (n - 10)) as char
    }
}

/// Minimal URL encoding of the UTF-8 bytes of a text for a query string
/// (see `encode_byte`).
pub fn urlencoded(s: &str) -> (r: String)
    ensures
        r@ == encode_bytes(encode_utf8(s@)),
{
    let bytes = s.as_bytes();
    let ghost bs = bytes@;
    assert(bs == encode_utf8(s@));
    let mut out = String::new();
    let mut i: usize = 0;
    while i < bytes.len()
        invariant
            bytes@ == bs,
            i <= bs.len(),
            out@ == encode_bytes(bs.take(i as int)),
        decreases bs.len() - i,
    {
        let b = bytes[i];
        assert(bs.take(i + 1).drop_last() =~= bs.take(i as int));
        if (0x41u8 <= b && b <= 0x5Au8) || (0x61u8 <= b && b <= 0x7Au8) || (0x30u8 <= b && b <= 0x39u8) || b == 0x2Du8 || b == 0x5Fu8
            || b == 0x2Eu8 || b == 0x7Eu8 {
            push_char(&mut out, b as char);
        } else if b == 0x20u8 {
            push_char(&mut out, '+');
        } else {
            push_char(&mut out, '%');
            push_char(&mut out, hex_upper_exec(b / 16));
            push_char(&mut out, hex_upper_exec(b % 16));
        }
        i = i + 1;
        assert(out@ =~= encode_bytes(bs.take(i as int)));
    }
    assert(bs.take(i as int) =~= bs);
    out
}

} // verus!

verus! {

/// The decimal digits of `n`, most significant first (`0` for zero).
pub open spec fn decimal(n: nat) -> Seq<char>
    decreases n,
{
    if n < 10 {
        seq![(n + 48) as char]
    } else {
        decimal(n / 10) + seq![((n % 10) + 48) as char]
    }
}

/// The decimal form of a number (as `format!("{n}")` writes it).
pub fn decimal_string(n: u64) -> (s: String)
    ensures
        s@ == decimal(n as nat),
    decreases n,
{
    let d: u8 = (n % 10) as u8;
    let c: char = (d + 48) as char;
    if n < 10 {
        let mut s = String::new();
        push_char(&mut s, c);
        assert(s@ =~= decimal(n as nat));
        s
    } else {
        let mut s = decimal_string(n / 10);
        push_char(&mut s, c);
        assert(s@ =~= decimal(n as nat));
        s
    }
}

/// The API path that verifies a fact: `/api/v1/verify?fact=` and the
/// encoded fact.
pub fn verify_fact_path(fact: &str) -> (p: String)
    ensures
        p@ == "/api/v1/verify?fact="@ + encode_bytes(encode_utf8(fact@)),
{
    let mut p = String::from_str("/api/v1/verify?fact=");
    let q = urlencoded(fact);
    p.append(q.as_str());
    p
}

/// The number of search results asked for: 5 when unspecified, at most 20.
pub open spec fn search_limit(limit: Option<u64>) -> u64 {
    let l = match limit {
        Some(l) => l,
        None => 5,
    };
    if l < 20 {
        l
    } else {
        20
    }
}

/// The API path that searches facts: `/api/v1/search?q=`, the encoded
/// query, `&limit=` and the limit (see `search_limit`).
pub fn search_facts_path(query: &str, limit: Option<u64>) -> (p: String)
    ensures
        p@ == "/api/v1/search?q="@ + encode_bytes(encode_utf8(query@)) + "&limit="@ + decimal(search_limit(limit) as nat),
{
    let mut p = String::from_str("/api/v1/search?q=");
    let q = urlencoded(query);
    p.append(q.as_str());
    p.append("&limit=");
    let l: u64 = match limit {
        Some(l) => l,
        None => 5,
    };
    let l: u64 = if l < 20 {
        l
    } else {
        20
    };
    let n = decimal_string(l);
    p.append(n.as_str());
    p
}

} // verus!
