//! A verified core for a concurrent podcast-feed fetcher: parsing response
//! bodies into feed documents, the publish-date fallback rule, the tagged
//! per-URL outcome model, and the aggregation that accounts for exactly one
//! outcome per submitted URL. Issuing the HTTP calls, scheduling the
//! concurrent workers and rendering the reports as text are the embedding
//! program's concern.

pub mod aggregate;
pub mod feed;
pub mod outcome;
pub mod parse;
