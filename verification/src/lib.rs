//! Data verification protocol library: content fingerprints, trust tiers,
//! transport helpers and text extraction, with contracts proved by Verus.

pub mod arc;
pub mod bytes;
pub mod cde;
mod clock;
pub mod crawler;
pub mod ddna;
pub mod node;
pub mod query;
pub mod text;
pub mod uag;
pub mod vtp;
