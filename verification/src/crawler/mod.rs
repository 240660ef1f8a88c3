//! Extraction of verifiable facts from encyclopedia pages, and the curated
//! fact collections used to seed a node.

pub mod extract;
pub mod facts;
pub mod frontier;
pub mod html;
pub mod spider;
pub mod wikidata;
