//! A content-addressed file host: key validation, content sniffing, a
//! size-capped hashing gate, deduplication by digest, and a store whose
//! records and blobs stay consistent with one another.

pub mod error;
pub mod classify;
pub mod gate;
pub mod key;
pub mod files;
pub mod ingest;
