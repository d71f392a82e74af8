//! The error taxonomy surfaced by the flush subsystem.
//!
//! `ManifestVersionExists` is the only error that is swallowed inside a retry
//! loop; every other error either propagates to the caller or is latched into
//! the database-wide fatal cell.

use vstd::prelude::*;

verus! {

/// Errors that can occur while operating the database.
///
/// Transport-level failures (I/O, the object store client, frame decoding)
/// carry no payload here: what the flush logic decides on is the kind alone.
#[derive(Clone, Copy, Debug, PartialEq, Eq, Structural)]
pub enum SlateDBError {
    /// A transport-level I/O failure.
    IoError,
    /// A stored frame failed its checksum.
    ChecksumMismatch,
    /// An SST with no rows was handed to the writer.
    EmptySSTable,
    /// An SST block index with no entries.
    EmptyBlockMeta,
    /// An SST block with no entries.
    EmptyBlock,
    /// A failure reported by the object store client.
    ObjectStoreError,
    /// A manifest object with the requested version already exists; benign,
    /// retried by the writer's outer loop.
    ManifestVersionExists,
    /// No manifest object with the requested version exists.
    ManifestMissing(u64),
    /// The store holds no manifest at all.
    LatestManifestMissing,
    /// A deletion was requested that the catalog cannot honour.
    InvalidDeletion,
    /// A stored manifest or SST could not be decoded.
    InvalidFlatbuffer,
    /// The in-memory catalog is inconsistent.
    InvalidDBState,
    /// A compaction request named SSTs that are not compactable.
    InvalidCompaction,
    /// A clock source moved backwards.
    InvalidClockTick { last_tick: i64, next_tick: i64 },
    /// A newer epoch was observed in the manifest store: another process has
    /// taken over as the writer, and this process must stop publishing.
    Fenced,
    /// A cache configuration value is out of range.
    InvalidCachePartSize,
    /// An unknown compression codec was configured.
    InvalidCompressionCodec,
    /// A block failed to decompress.
    BlockDecompressionError,
    /// A block failed to compress.
    BlockCompressionError,
    /// A row carried flags written by a newer codec.
    InvalidRowFlags,
    /// The WAL flush channel closed unexpectedly.
    WalFlushChannelError,
    /// The memtable flush channel closed unexpectedly.
    MemtableFlushChannelError,
    /// A reply channel closed before its message arrived.
    ReadChannelError,
}

} // verus!
