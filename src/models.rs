//! The records that the backend answers with, as the renderers read them.
//!
//! Fractional numbers reach these records already written out in decimal:
//! the acceptance rate and the similarity as percentages with one decimal
//! place, the rating as the backend gave it.
use vstd::prelude::*;

verus! {

/// One problem of one judge. Absent optional fields stay `None`.
pub struct Problem {
    pub id: String,
    pub source: String,
    pub slug: Option<String>,
    pub title: String,
    pub difficulty: Option<String>,
    /// Acceptance rate in percent, one decimal place (`"49.5"`).
    pub ac_rate: Option<String>,
    pub rating: Option<String>,
    pub tags: Option<Vec<String>>,
    pub link: Option<String>,
    /// The statement, as HTML or as plain text.
    pub content: Option<String>,
}

/// The answer of the daily-challenge endpoint while it is still fetching.
pub struct DailyFetching {
    pub retry_after: u64,
}

/// A similarity search: the query as the backend rewrote it, and the
/// matches, best first.
pub struct SimilarResponse {
    pub rewritten_query: String,
    pub results: Vec<SimilarResult>,
}

/// One match of a similarity search.
pub struct SimilarResult {
    pub source: String,
    pub id: String,
    pub title: String,
    pub difficulty: Option<String>,
    pub link: Option<String>,
    /// Similarity in percent, one decimal place (`"87.5"`).
    pub similarity: String,
}

/// The answer of the resolve endpoint.
pub struct ResolveResponse {
    pub problem: Problem,
}

/// The backend's version and its per-platform counters.
pub struct StatusResponse {
    pub version: String,
    pub platforms: Vec<PlatformStatus>,
}

/// Indexing counters of one platform.
pub struct PlatformStatus {
    pub source: String,
    pub total: u64,
    pub missing_content: u64,
    pub not_embedded: u64,
}

} // verus!
