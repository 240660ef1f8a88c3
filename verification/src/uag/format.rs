//! Helpers for storage keys and XML text.

use vstd::prelude::*;
use vstd::utf8::encode_utf8;
use crate::bytes::push_all;
use crate::text::{chars_of, push_char};

verus! {

/// Key prefix of stored data.
pub const PREFIX_DATA: [u8; 2] = [0x64, 0x3a];

/// Key prefix of stored Data DNA.
pub const PREFIX_DDNA: [u8; 2] = [0x6e, 0x3a];

/// Key prefix of stored data metadata.
pub const PREFIX_INFO: [u8; 2] = [0x69, 0x3a];

/// Key prefix of consensus records.
pub const PREFIX_CONSENSUS: [u8; 2] = [0x63, 0x3a];

/// A storage key: the prefix followed by the UTF-8 bytes of the id.
pub fn make_key(prefix: &[u8], id: &str) -> (key: Vec<u8>)
    ensures
        key@ == prefix@ + encode_utf8(id@),
{
    let mut key: Vec<u8> = Vec::new();
    push_all(&mut key, prefix);
    let bytes = id.as_bytes();
    push_all(&mut key, bytes);
    key
}

/// The XML escape of one character.
pub open spec fn escape_char(c: char) -> Seq<char> {
    if c == '&' {
        "&amp;"@
    } else if c == '<' {
        "&lt;"@
    } else if c == '>' {
        "&gt;"@
    } else if c == '"' {
        "&quot;"@
    } else {
        seq![c]
    }
}

/// `s` with `&`, `<`, `>` and `"` escaped for XML.
pub open spec fn xml_escaped(s: Seq<char>) -> Seq<char>
    decreases s.len(),
{
    if s.len() == 0 {
        Seq::empty()
    } else {
        xml_escaped(s.drop_last()) + escape_char(s.last())
    }
}

/// Escapes a text for XML (see `xml_escaped`).
pub fn xml_escape(s: &str) -> (r: String)
    ensures
        r@ == xml_escaped(s@),
{
    let c = chars_of(s);
    let mut out = String::new();
    let mut i: usize = 0;
    while i < c.len()
        invariant
            c@ == s@,
            i <= c@.len(),
            out@ == xml_escaped(c@.take(i as int)),
        decreases c@.len() - i,
    {
        assert(c@.take(i + 1).drop_last() =~= c@.take(i as int));
        let ch = c[i];
        if ch == '&' {
            out.append("&amp;");
        } else if ch == '<' {
            out.append("&lt;");
        } else if ch == '>' {
            out.append("&gt;");
        } else if ch == '"' {
            out.append("&quot;");
        } else {
            push_char(&mut out, ch);
        }
        i = i + 1;
    }
    assert(c@.take(i as int) =~= c@);
    out
}

} // verus!
