//! The query side of a search request — free text, pagination window and
//! option flags — together with the error taxonomy and the envelope in
//! which results are handed back.

use vstd::prelude::*;

verus! {

/// Flags forwarded to a backend search engine; each one independently
/// toggles what the backend includes in its reply.
#[derive(Clone, Debug, PartialEq, Eq)]
pub struct SearchOptions {
    /// Include the backend's scoring rationale.
    pub explain: bool,
    /// Include each item's metadata blob.
    pub metadata: bool,
    /// Include aggregate summaries.
    pub summaries: bool,
}

impl SearchOptions {
    /// Every flag off: what advisory lookups ask for, since only the
    /// reported total is consumed.
    pub fn disabled() -> (r: SearchOptions)
        ensures
            !r.explain,
            !r.metadata,
            !r.summaries,
    {
        SearchOptions { explain: false, metadata: false, summaries: false }
    }
}

/// Free-text query and pagination window of one inbound search request.
#[derive(Clone, Debug, PartialEq, Eq)]
pub struct QueryParams {
    /// The free-text query.
    pub q: String,
    /// How many matches to skip.
    pub offset: usize,
    /// How many matches one page may hold.
    pub limit: usize,
}

/// Why a request was rejected before any backend was called.
#[derive(Clone, Debug, PartialEq, Eq)]
pub enum ValidationError {
    /// The query text was empty.
    EmptyQuery,
}

impl QueryParams {
    /// A request is well formed exactly when its query text is nonempty.
    pub open spec fn is_valid(&self) -> bool {
        self.q@.len() > 0
    }

    /// Rejects a malformed request before any backend call is made.
    pub fn validate(&self) -> (r: Result<(), ValidationError>)
        ensures
            r is Ok <==> self.is_valid(),
            !self.is_valid() ==> r == Err::<(), ValidationError>(ValidationError::EmptyQuery),
    {
        if self.q.as_str().is_empty() {
            Err(ValidationError::EmptyQuery)
        } else {
            Ok(())
        }
    }
}

/// Failure reported by one of the backend search services.
#[derive(Clone, Debug, PartialEq, Eq)]
pub struct BackendError {
    /// What the backend client reported.
    pub reason: String,
}

/// Why a whole search request failed: its parameters were malformed, or
/// the primary search itself failed. Advisory lookups never appear here:
/// their failures are absorbed item by item.
#[derive(Clone, Debug, PartialEq, Eq)]
pub enum RequestError {
    /// Rejected before any backend call.
    Validation(ValidationError),
    /// The primary search failed; the request fails with it.
    Primary(BackendError),
}

/// Envelope handed back to callers: the total the backend reported and
/// one page of results.
#[derive(Clone, Debug, PartialEq, Eq)]
pub struct SearchResult<T> {
    /// Total matches the backend reported, independent of page size.
    pub total: Option<u64>,
    /// One page of results, in backend order.
    pub result: Vec<T>,
}

/// Wraps a page of items with the total reported by the primary search.
/// The total is taken as reported and never recomputed from the page.
pub fn assemble<T>(total: u64, items: Vec<T>) -> (r: SearchResult<T>)
    ensures
        r.total == Some(total),
        r.result == items,
{
    SearchResult { total: Some(total), result: items }
}

} // verus!
