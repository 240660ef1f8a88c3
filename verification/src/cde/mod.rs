//! Clean data engine: exact and near duplicate detection, source checks,
//! normalisation into the universal format, freshness and claim extraction.

pub mod claims;
pub mod dedup;
pub mod freshness;
pub mod intake;
pub mod normalize;
pub mod overlap;
pub mod validation;

use vstd::prelude::*;

verus! {

/// Errors of the clean data engine.
#[derive(Debug, Clone)]
pub enum CdeError {
    /// The datum is a duplicate.
    DuplicateData(String),
    /// The source could not be validated.
    SourceValidationFailed(String),
    /// Normalisation failed.
    NormalizationFailed(String),
    /// The AI agent failed.
    AiAgentError(String),
}

} // verus!

verus! {

/// The message of an engine error, as its display form writes it.
pub open spec fn cde_error_message(e: CdeError) -> Seq<char> {
    match e {
        CdeError::DuplicateData(m) => "Dato duplicato: "@ + m@,
        CdeError::SourceValidationFailed(m) => "Validazione fonte fallita: "@ + m@,
        CdeError::NormalizationFailed(m) => "Normalizzazione fallita: "@ + m@,
        CdeError::AiAgentError(m) => "Errore AI agent: "@ + m@,
    }
}

impl CdeError {
    /// The error's message (see `cde_error_message`).
    pub fn to_string(&self) -> (s: String)
        ensures
            s@ == cde_error_message(*self),
    {
        let (prefix, m) = match self {
            CdeError::DuplicateData(m) => ("Dato duplicato: ", m),
            CdeError::SourceValidationFailed(m) => ("Validazione fonte fallita: ", m),
            CdeError::NormalizationFailed(m) => ("Normalizzazione fallita: ", m),
            CdeError::AiAgentError(m) => ("Errore AI agent: ", m),
        };
        let mut s = String::from_str(prefix);
        s.append(m.as_str());
        s
    }
}

} // verus!
