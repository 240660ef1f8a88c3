//! Normalisation into the universal format (VUF): the detected schema, the
//! domain and the zstd-compressed content.

use vstd::prelude::*;
use vstd::utf8::{decode_utf8, valid_utf8};
use crate::text::{chars_of, lines, split_lines};
use crate::vtp::compression::{zstd_content, zstd_decode, zstd_encode, zstd_frame};
use super::CdeError;

verus! {

/// Shape of a datum's content.
#[derive(Debug, Clone, Copy, PartialEq, Eq, Structural)]
pub enum VufSchema {
    /// A JSON document.
    Json,
    /// UTF-8 text.
    PlainText,
    /// Comma-separated rows.
    Tabular,
    /// Anything else.
    Binary,
}

/// A datum in the universal format.
#[derive(Debug, Clone)]
pub struct VufRecord {
    /// Detected schema.
    pub schema: VufSchema,
    /// Knowledge domain.
    pub domain: String,
    /// The zstd-compressed content.
    pub payload: Vec<u8>,
    /// Size of the content in bytes.
    pub original_size: u64,
}

/// Whether `serde_json` parses the bytes as a JSON document.
pub uninterp spec fn json_document(bytes: Seq<u8>) -> bool;

/// `serde_json::from_slice::<serde_json::Value>(bytes).is_ok()`.
#[verifier::external_body]
fn parses_as_json(bytes: &[u8]) -> (b: bool)
    ensures
        b == json_document(bytes@),
{
    serde_json::from_slice::<serde_json::Value>(bytes).is_ok()
}

/// `std::str::from_utf8(bytes).ok()`: the text, exactly when the bytes are
/// valid UTF-8.
#[verifier::external_body]
fn utf8_text(bytes: &[u8]) -> (r: Option<&str>)
    ensures
        r is Some <==> valid_utf8(bytes@),
        r matches Some(s) ==> s@ == decode_utf8(bytes@),
{
    std::str::from_utf8(bytes).ok()
}

/// Number of commas in a line.
pub open spec fn commas(l: Seq<char>) -> nat
    decreases l.len(),
{
    if l.len() == 0 {
        0
    } else {
        commas(l.drop_last()) + (if l.last() == ',' { 1nat } else { 0nat })
    }
}

/// Several lines, each with at least one comma and all with the same number.
pub open spec fn tabular(ls: Seq<Seq<char>>) -> bool {
    &&& ls.len() > 1
    &&& forall|i: int| 0 <= i < ls.len() ==> commas(#[trigger] ls[i]) > 0
    &&& forall|i: int| 0 <= i < ls.len() - 1 ==> commas(#[trigger] ls[i]) == commas(ls[i + 1])
}

/// The schema of a content: JSON if it parses as JSON, otherwise tabular or
/// plain text if it is UTF-8, otherwise binary.
pub open spec fn schema_of(content: Seq<u8>) -> VufSchema {
    if json_document(content) {
        VufSchema::Json
    } else if valid_utf8(content) {
        if tabular(lines(decode_utf8(content))) {
            VufSchema::Tabular
        } else {
            VufSchema::PlainText
        }
    } else {
        VufSchema::Binary
    }
}

fn commas_exec(l: &[char]) -> (n: usize)
    ensures
        n == commas(l@),
{
    let mut n: usize = 0;
    let mut i: usize = 0;
    while i < l.len()
        invariant
            i <= l@.len(),
            n == commas(l@.take(i as int)),
            n <= i,
        decreases l@.len() - i,
    {
        assert(l@.take(i + 1).drop_last() =~= l@.take(i as int));
        if l[i] == ',' {
            n = n + 1;
        }
        i = i + 1;
    }
    assert(l@.take(i as int) =~= l@);
    n
}

/// Detects the schema of a content (see `schema_of`).
pub fn detect_schema(content: &[u8]) -> (s: VufSchema)
    ensures
        s == schema_of(content@),
{
    if parses_as_json(content) {
        return VufSchema::Json;
    }
    match utf8_text(content) {
        None => VufSchema::Binary,
        Some(text) => {
            let c = chars_of(text);
            let ls = split_lines(c.as_slice());
            let ghost all = lines(decode_utf8(content@));
            assert(c@ == decode_utf8(content@));
            if ls.len() <= 1 {
                return VufSchema::PlainText;
            }
            let first = commas_exec(ls[0].as_slice());
            let mut i: usize = 0;
            while i < ls.len()
                invariant
                    ls@.len() == all.len(),
                    all.len() > 1,
                    forall|k: int| 0 <= k < ls@.len() ==> #[trigger] ls@[k]@ == all[k],
                    first == commas(all[0]),
                    i <= ls@.len(),
                    i > 0 ==> first > 0,
                    !json_document(content@),
                    valid_utf8(content@),
                    all == lines(decode_utf8(content@)),
                    forall|k: int| 0 <= k < i ==> commas(#[trigger] all[k]) == first,
                decreases ls@.len() - i,
            {
                let n = commas_exec(ls[i].as_slice());
                if n == 0 || n != first {
                    proof {
                        assert(commas(all[i as int]) == n);
                        if n != 0 && i > 0 {
                            assert(commas(all[i - 1]) == first);
                            assert(commas(all[i - 1]) != commas(all[(i - 1) + 1]));
                        }
                    }
                    return VufSchema::PlainText;
                }
                i = i + 1;
            }
            proof {
                assert forall|k: int| 0 <= k < all.len() - 1 implies commas(#[trigger] all[k]) == commas(all[k + 1]) by {
                    assert(commas(all[k]) == first);
                    assert(commas(all[k + 1]) == first);
                }
            }
            VufSchema::Tabular
        },
    }
}

/// The content a record's payload decompresses to, if it does.
pub open spec fn vuf_content(rec: VufRecord) -> Option<Seq<u8>> {
    zstd_content(rec.payload@)
}

/// `rec` is the record of `content` in `domain`.
pub open spec fn is_record_of(rec: VufRecord, content: Seq<u8>, domain: Seq<char>) -> bool {
    &&& rec.schema == schema_of(content)
    &&& rec.domain@ == domain
    &&& rec.payload@ == zstd_frame(content, 3)
    &&& rec.original_size == content.len()
    &&& vuf_content(rec) == Some(content)
}

/// Normalises a content into a VUF record (schema, domain, zstd level 3);
/// it always succeeds.
pub fn normalize(content: &[u8], domain: &str) -> (r: Result<VufRecord, CdeError>)
    ensures
        r matches Ok(rec) && is_record_of(rec, content@, domain@),
{
    let schema = detect_schema(content);
    let original_size = content.len() as u64;
    match zstd_encode(content, 3) {
        Ok(payload) => Ok(VufRecord { schema, domain: String::from_str(domain), payload, original_size }),
        Err(msg) => {
            let mut m = String::from_str("Compressione fallita: ");
            m.append(msg.as_str());
            Err(CdeError::NormalizationFailed(m))
        },
    }
}

/// The content of a VUF record.
pub fn denormalize(record: &VufRecord) -> (r: Result<Vec<u8>, CdeError>)
    ensures
        match vuf_content(*record) {
            Some(c) => r matches Ok(v) && v@ == c,
            None => r matches Err(e) && e is NormalizationFailed,
        },
{
    match zstd_decode(record.payload.as_slice()) {
        Ok(v) => Ok(v),
        Err(msg) => {
            let mut m = String::from_str("Decompressione fallita: ");
            m.append(msg.as_str());
            Err(CdeError::NormalizationFailed(m))
        },
    }
}

/// Denormalising the record of a content gives the content back.
pub proof fn lemma_vuf_roundtrip(rec: VufRecord, content: Seq<u8>, domain: Seq<char>)
    requires
        is_record_of(rec, content, domain),
    ensures
        vuf_content(rec) == Some(content),
{
}

} // verus!
