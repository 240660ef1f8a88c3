//! Whether the clean data engine accepts a datum: exact duplicates,
//! forged sources and contents that do not normalise are refused.

use vstd::prelude::*;
use crate::bytes::hex_lower;
use crate::ddna::crypto::blake3_digest;
use crate::ddna::identity::signature_valid;
use crate::ddna::DataDna;
use super::dedup::ExactDedupIndex;
use super::normalize::{is_record_of, normalize, VufRecord};
use super::validation::check_source_authenticity;
use super::CdeError;

verus! {

/// The outcome of screening `data` with Data DNA `ddna` against an index
/// holding `index`, in order: a datum whose digest is already indexed is an
/// exact duplicate (`DuplicateData`, "Duplicato esatto: <id>"); a bad
/// signature or a content that does not match its digest fails validation
/// (see `check_source_authenticity`); otherwise the content is normalised
/// (see `normalize`), which always succeeds.
pub open spec fn screened(
    index: Map<Seq<u8>, Seq<char>>,
    data: Seq<u8>,
    ddna: DataDna,
    domain: Seq<char>,
    r: Result<VufRecord, CdeError>,
) -> bool {
    let known = index.dom().contains(ddna.fingerprint.blake3@);
    let signed = signature_valid(ddna.source, ddna.fingerprint);
    let matches = ddna.fingerprint.blake3@ == blake3_digest(data);
    &&& known ==> (r matches Err(CdeError::DuplicateData(m)) && m@ == "Duplicato esatto: "@ + hex_lower(
        ddna.fingerprint.blake3@,
    ))
    &&& !known && !signed ==> (r matches Err(CdeError::SourceValidationFailed(m)) && m@
        == "Firma Ed25519 non valida"@)
    &&& !known && signed && !matches ==> (r matches Err(CdeError::SourceValidationFailed(m)) && m@
        == "Contenuto non corrisponde al fingerprint"@)
    &&& !known && signed && matches ==> (r matches Ok(rec) && is_record_of(rec, data, domain))
}

/// Runs the refusing stages of the engine on a datum (see `screened`). The
/// index is not changed.
pub fn screen_datum(index: &ExactDedupIndex, data: &[u8], ddna: &DataDna, domain: &str) -> (r: Result<VufRecord, CdeError>)
    ensures
        screened(index@, data@, *ddna, domain@, r),
{
    if index.check(&ddna.fingerprint.blake3).is_some() {
        let mut m = String::from_str("Duplicato esatto: ");
        let id = ddna.id();
        m.append(id.as_str());
        return Err(CdeError::DuplicateData(m));
    }
    match check_source_authenticity(data, ddna) {
        Ok(()) => {},
        Err(e) => return Err(e),
    }
    normalize(data, domain)
}

/// Screens a datum (see `screened`) and, when it is accepted, records its
/// digest with its id in the index, so that sending it again is refused as
/// an exact duplicate. A refused datum leaves the index unchanged.
pub fn screen_and_register(index: &mut ExactDedupIndex, data: &[u8], ddna: &DataDna, domain: &str) -> (r: Result<
    VufRecord,
    CdeError,
>)
    ensures
        screened(old(index)@, data@, *ddna, domain@, r),
        r is Ok ==> final(index)@ == old(index)@.insert(
            ddna.fingerprint.blake3@,
            hex_lower(ddna.fingerprint.blake3@),
        ),
        r is Err ==> final(index)@ == old(index)@,
{
    let r = screen_datum(index, data, ddna, domain);
    if r.is_ok() {
        index.insert(ddna.fingerprint.blake3, ddna.id());
    }
    r
}

} // verus!
