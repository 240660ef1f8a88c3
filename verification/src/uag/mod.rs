//! Gateway logic: trust tiers, keyword matching, request limiting, request
//! and answer shapes and format helpers.

pub mod api;
pub mod format;
pub mod json_doc;
pub mod keyword_match;
pub mod middleware;
pub mod subject_number;
pub mod translator;
pub mod trust;

use vstd::prelude::*;

verus! {

/// Errors of the gateway.
#[derive(Debug, Clone)]
pub enum UagError {
    /// The requested format is not supported.
    UnsupportedFormat(String),
    /// A translation failed.
    TranslationFailed(String),
    /// Authentication is required.
    AuthRequired,
    /// Too many requests.
    RateLimitExceeded,
}

} // verus!

verus! {

/// The message of a gateway error, as its display form writes it.
pub open spec fn uag_error_message(e: UagError) -> Seq<char> {
    match e {
        UagError::UnsupportedFormat(m) => "Formato non supportato: "@ + m@,
        UagError::TranslationFailed(m) => "Traduzione fallita: "@ + m@,
        UagError::AuthRequired => "Autenticazione richiesta"@,
        UagError::RateLimitExceeded => "Rate limit superato"@,
    }
}

impl UagError {
    /// The error's message (see `uag_error_message`).
    pub fn to_string(&self) -> (s: String)
        ensures
            s@ == uag_error_message(*self),
    {
        match self {
            UagError::UnsupportedFormat(m) => {
                let mut s = String::from_str("Formato non supportato: ");
                s.append(m.as_str());
                s
            },
            UagError::TranslationFailed(m) => {
                let mut s = String::from_str("Traduzione fallita: ");
                s.append(m.as_str());
                s
            },
            UagError::AuthRequired => String::from_str("Autenticazione richiesta"),
            UagError::RateLimitExceeded => String::from_str("Rate limit superato"),
        }
    }
}

} // verus!
