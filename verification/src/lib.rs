//! Request-time aggregation over two search backends: a primary SBOM
//! (software bill of materials) index and a secondary advisory index.
//!
//! One primary search returns a page of SBOM documents; each document is
//! mapped to a public summary, an advisory lookup is derived from the
//! summary's identifying fields, and the count reported by the secondary
//! index is merged back into the summary. The primary path fails fast;
//! advisory lookups are best effort and fail item by item, never the
//! request as a whole.

pub mod enrich;
pub mod laws;
pub mod normalize;
pub mod sbom;
pub mod search;
