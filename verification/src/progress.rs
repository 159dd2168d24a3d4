//! The index writer's running count of documents, and when it owes a
//! progress observation: one every `PROGRESS_INTERVAL` documents, purely
//! informational.

use vstd::prelude::*;

verus! {

/// A progress observation is owed every this many documents.
pub const PROGRESS_INTERVAL: u64 = 10000;

/// The single index writer's running count of documents added.
pub struct Progress {
    /// How many documents have been added so far.
    pub indexed: u64,
}

impl Progress {
    /// A fresh count: no document added yet.
    pub fn new() -> (r: Self)
        ensures
            r.indexed == 0,
    {
        Progress { indexed: 0 }
    }

    /// Notes one more document added. Returns whether a progress observation
    /// is owed now: exactly when the new count is a multiple of
    /// `PROGRESS_INTERVAL`.
    pub fn note_indexed(&mut self) -> (report: bool)
        requires
            old(self).indexed < u64::MAX,
        ensures
            final(self).indexed == old(self).indexed + 1,
            report == (final(self).indexed % PROGRESS_INTERVAL == 0),
    {
        self.indexed = self.indexed + 1;
        self.indexed % PROGRESS_INTERVAL == 0
    }

    /// The total count, reported once the channel has closed and the final
    /// commit is done.
    pub fn total(&self) -> (r: u64)
        ensures
            r == self.indexed,
    {
        self.indexed
    }
}

} // verus!
