//! Semantic vector: an embedding of the content, carried with the datum.

use vstd::prelude::*;

verus! {

/// Embedding of a datum's content. The values are half-precision floats,
/// held by their 16-bit IEEE-754 bit patterns.
#[derive(Debug, Clone)]
pub struct SemanticVector {
    /// Id of the model that produced the embedding.
    pub model_id: String,
    /// Number of dimensions.
    pub dimensions: u16,
    /// Bit patterns of the `f16` values.
    pub values: Vec<u16>,
}

impl SemanticVector {
    /// A vector of the given half-precision values; the dimension count is
    /// the number of values, truncated to 16 bits.
    pub fn from_half_bits(model_id: &str, values: Vec<u16>) -> (v: SemanticVector)
        ensures
            v.model_id@ == model_id@,
            v.dimensions == values@.len() as u16,
            v.values@ == values@,
    {
        let n = values.len();
        SemanticVector { model_id: String::from_str(model_id), dimensions: #[verifier::truncate] (n as u16), values }
    }
}

} // verus!
