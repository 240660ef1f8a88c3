//! Shapes of the REST requests and answers.

use vstd::prelude::*;
use vstd::utf8::encode_utf8;
use crate::ddna::crypto::blake3_digest;
use crate::ddna::{valid_at, verified_at, DataDna};

verus! {

/// Request to insert a datum.
#[derive(Debug, Clone)]
pub struct InsertDataRequest {
    /// The content.
    pub content: String,
    /// Its knowledge domain.
    pub domain: String,
    /// Its source.
    pub source: String,
}

/// State of the node.
#[derive(Debug, Clone)]
pub struct NodeStatusResponse {
    /// Node id (hex public key).
    pub node_id: String,
    /// Software version.
    pub version: String,
    /// Status word.
    pub status: String,
    /// Seconds since start.
    pub uptime_secs: u64,
    /// Number of data stored.
    pub data_count: u64,
}

/// A connected peer.
#[derive(Debug, Clone)]
pub struct PeerResponse {
    /// Peer id.
    pub node_id: String,
    /// Peer address.
    pub address: String,
}

/// Result of a format translation.
#[derive(Debug, Clone)]
pub struct TranslateResponse {
    /// The translated text.
    pub result: String,
    /// Its format.
    pub format: String,
}

/// A query over the stored data.
#[derive(Debug, Clone)]
pub struct QueryRequest {
    /// Text to look for.
    pub query: String,
    /// Restrict to a domain.
    pub domain: Option<String>,
    /// Maximum number of results.
    pub limit: Option<usize>,
}

/// Request to verify a stored datum.
#[derive(Debug, Clone)]
pub struct VerifyRequest {
    /// Id of the datum.
    pub id: String,
    /// Content to check against it, if any.
    pub content: Option<String>,
}

/// Result of a verification.
#[derive(Debug, Clone)]
pub struct VerifyResponse {
    /// Id of the datum.
    pub id: String,
    /// Whether it verified.
    pub verified: bool,
    /// Explanation.
    pub details: String,
}

/// An error of the GraphQL endpoint.
#[derive(Debug, Clone)]
pub struct GraphQLError {
    /// Message.
    pub message: String,
}

/// The error the GraphQL endpoint answers every query with, as it does not
/// execute queries yet; the message quotes the query.
pub fn unimplemented_query_error(query: &str) -> (e: GraphQLError)
    ensures
        e.message@ == "GraphQL non ancora implementato. Query ricevuta: "@ + query@,
{
    let mut m = String::from_str("GraphQL non ancora implementato. Query ricevuta: ");
    m.append(query);
    GraphQLError { message: m }
}

} // verus!

verus! {

/// The answer to a verification request for a stored datum `id` with Data
/// DNA `d`, checked at time `now_us` when no content is given: with
/// content, whether its digest is the recorded one; without, whether the
/// Data DNA is valid.
pub open spec fn verify_answer(id: Seq<char>, d: DataDna, content: Option<Seq<char>>, now_us: i64) -> (
    Seq<char>,
    bool,
    Seq<char>,
) {
    match content {
        Some(c) => if d.fingerprint.blake3@ == blake3_digest(encode_utf8(c)) {
            (id, true, "Contenuto verificato: fingerprint corrisponde"@)
        } else {
            (id, false, "Contenuto non corrisponde al fingerprint"@)
        },
        None => if valid_at(d, now_us) {
            (id, true, "dDNA integro: firma e catena valide"@)
        } else {
            (id, false, "Verifica dDNA fallita"@)
        },
    }
}

/// The characters of an optional text.
pub open spec fn text_option(t: Option<&str>) -> Option<Seq<char>> {
    match t {
        Some(s) => Some(s@),
        None => None,
    }
}

/// Answers a verification request for the stored datum `id` whose Data DNA
/// is `ddna` (see `verify_answer`); the Data DNA is checked against the
/// system clock.
pub fn verify_response(id: String, ddna: &DataDna, content: Option<&str>) -> (r: VerifyResponse)
    ensures
        exists|now_us: i64|
            (r.id@, r.verified, r.details@) == #[trigger] verify_answer(id@, *ddna, text_option(content), now_us),
{
    match content {
        Some(c) => {
            let ok = match ddna.verify_content(c.as_bytes()) {
                Ok(b) => b,
                Err(_) => false,
            };
            let details = if ok {
                String::from_str("Contenuto verificato: fingerprint corrisponde")
            } else {
                String::from_str("Contenuto non corrisponde al fingerprint")
            };
            let ghost idv = id@;
            let r = VerifyResponse { id, verified: ok, details };
            assert((r.id@, r.verified, r.details@) == verify_answer(idv, *ddna, text_option(content), 0));
            r
        },
        None => {
            let checked = ddna.verify();
            let ok = match checked {
                Ok(b) => b,
                Err(_) => false,
            };
            let details = if ok {
                String::from_str("dDNA integro: firma e catena valide")
            } else {
                String::from_str("Verifica dDNA fallita")
            };
            let ghost idv = id@;
            let ghost t = choose|t: i64| verified_at(*ddna, t, checked);
            let r = VerifyResponse { id, verified: ok, details };
            assert((r.id@, r.verified, r.details@) == verify_answer(idv, *ddna, text_option(content), t));
            r
        },
    }
}

} // verus!
