//! Source validation: the producer's signature and the content's digest.

use vstd::prelude::*;
use crate::ddna::crypto::blake3_digest;
use crate::ddna::identity::signature_valid;
use crate::ddna::DataDna;
use super::CdeError;

verus! {

/// Stage 4, the cryptographic part: the producer's signature must be valid
/// and the content must have the recorded BLAKE3 digest, in that order.
pub fn check_source_authenticity(data: &[u8], ddna: &DataDna) -> (r: Result<(), CdeError>)
    ensures
        r is Ok <==> signature_valid(ddna.source, ddna.fingerprint) && ddna.fingerprint.blake3@ == blake3_digest(
            data@,
        ),
        !signature_valid(ddna.source, ddna.fingerprint) ==> (r matches Err(CdeError::SourceValidationFailed(m)) && m@
            == "Firma Ed25519 non valida"@),
        signature_valid(ddna.source, ddna.fingerprint) && ddna.fingerprint.blake3@ != blake3_digest(data@) ==> (r matches Err(
            CdeError::SourceValidationFailed(m),
        ) && m@ == "Contenuto non corrisponde al fingerprint"@),
{
    if ddna.source.verify(&ddna.fingerprint).is_err() {
        return Err(CdeError::SourceValidationFailed(String::from_str("Firma Ed25519 non valida")));
    }
    if ddna.verify_content(data).is_err() {
        return Err(CdeError::SourceValidationFailed(String::from_str("Contenuto non corrisponde al fingerprint")));
    }
    Ok(())
}

} // verus!
