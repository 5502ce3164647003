//! Usage statistics for a package-download caching proxy.
//!
//! Download observations are written to a relational event store and
//! summarised over a trailing time window. `report` holds the summary record
//! and its text form, `store` the event store, `ingest` the rules of the
//! background worker that feeds it.

pub mod report;
pub mod store;
pub mod ingest;
