//! Pipeline configuration: thread counts, write-buffer size and channel
//! capacities, with the fixed defaults of the command-line tool.

use vstd::prelude::*;

verus! {

/// Capacity of the bounded channel carrying candidate file entries from the
/// walker to the parser workers.
pub const FILE_CHANNEL_CAPACITY: usize = 128;

/// Capacity of the bounded channel carrying normalized documents from the
/// parser workers to the single index writer.
pub const DOC_CHANNEL_CAPACITY: usize = 16;

/// Default number of mail-parsing worker threads.
pub const DEFAULT_READ_THREADS: usize = 2;

/// Default number of engine writer threads.
pub const DEFAULT_INDEX_THREADS: usize = 1;

/// Default engine write-buffer size in megabytes.
pub const DEFAULT_INDEX_BUFFER_MB: usize = 256;

/// One megabyte in bytes.
pub const BYTES_PER_MB: usize = 1048576;

/// Configuration of one `index` run. Supplied once per invocation and never
/// mutated while the pipeline runs.
pub struct PipelineConfig {
    /// Number of parallel mail-parsing workers.
    pub read_threads: usize,
    /// Number of engine writer threads.
    pub index_threads: usize,
    /// Engine write-buffer size in megabytes.
    pub index_buffer_mb: usize,
    /// Root directories to walk for messages.
    pub roots: Vec<String>,
}

impl Default for PipelineConfig {
    /// The defaults of the command line: 2 read threads, 1 index thread,
    /// a 256 MB write buffer, and no roots.
    fn default() -> (r: Self)
        ensures
            r.read_threads == DEFAULT_READ_THREADS,
            r.index_threads == DEFAULT_INDEX_THREADS,
            r.index_buffer_mb == DEFAULT_INDEX_BUFFER_MB,
            r.roots@.len() == 0,
    {
        PipelineConfig {
            read_threads: DEFAULT_READ_THREADS,
            index_threads: DEFAULT_INDEX_THREADS,
            index_buffer_mb: DEFAULT_INDEX_BUFFER_MB,
            roots: Vec::new(),
        }
    }
}

impl PipelineConfig {
    /// The engine write-buffer size in bytes, or `None` when the configured
    /// megabyte count would overflow a `usize`.
    pub fn buffer_bytes(&self) -> (r: Option<usize>)
        ensures
            self.index_buffer_mb <= usize::MAX as int / BYTES_PER_MB as int ==> r == Some(
                (self.index_buffer_mb * BYTES_PER_MB) as usize,
            ),
            self.index_buffer_mb > usize::MAX as int / BYTES_PER_MB as int ==> r is None,
    {
        self.index_buffer_mb.checked_mul(BYTES_PER_MB)
    }
}

} // verus!
