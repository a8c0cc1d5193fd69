//! The error taxonomy of the engine. Station and line lookup errors are user
//! input errors; a parse error is recovered per departure; a fetch error is
//! produced at the transport edge and recovered per provider when possible.

use vstd::prelude::*;

verus! {

/// A station query failed: either nothing matched, or the query was too
/// broad and no exact name settled it. `candidates` lists the names of all
/// matched stations of the ambiguous case.
#[derive(Debug)]
pub enum ResolveError {
    NotFound { query: String, provider: String },
    Ambiguous { query: String, provider: String, candidates: Vec<String> },
}

/// A timestamp could not be parsed; `value` is the malformed text. Recovered
/// locally: only the one departure carrying it is skipped.
#[derive(Debug)]
pub struct ParseError {
    pub value: String,
}

/// A provider's live data could not be fetched. Produced at the transport
/// edge; the aggregator degrades to empty trips for that provider when
/// another provider succeeded.
#[derive(Debug)]
pub struct FetchError {
    pub provider: String,
    pub message: String,
}

impl FetchError {
    /// A field-for-field copy of the error.
    pub fn duplicate(&self) -> (r: FetchError)
        ensures
            r == *self,
    {
        FetchError { provider: self.provider.clone(), message: self.message.clone() }
    }
}

} // verus!
