//! Verified core of a Maildir full-text indexing pipeline.
//!
//! The library holds the decision logic of the pipeline: which directory
//! entries are candidate message files, how a message's bytes become a
//! normalized document, the fixed index schema, the idempotent open policy,
//! and the writer's progress accounting. File traversal, threads, channels
//! and the search engine itself live outside the library and hand it plain
//! values.

pub mod config;
pub mod mail;
pub mod progress;
pub mod schema;
pub mod walk;
