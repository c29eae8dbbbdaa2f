//! Point-in-time statistics snapshots of a relational database.
//!
//! The library is the aggregation and data-modeling layer of a snapshot
//! collector: raw instrumentation readings (nullable scalars for the
//! database-wide counters, one nullable row per user table for the per-table
//! counters) are normalized into fixed, fully populated snapshot records,
//! keyed per table where applicable, and rendered as JSON for a monitoring
//! pipeline.  A missing or NULL reading is always resolved to zero at
//! construction time, never left undefined.
//!
//! Querying the database engine itself (sessions, SQL, the wall clock) is the
//! caller's business: the caller reads the instrumentation views and hands
//! the raw values in as plain data, which keeps this layer pure and testable
//! against a fake source.

pub mod json;
pub mod parse;
pub mod roundtrip;
pub mod numeric;
pub mod snapshot;
