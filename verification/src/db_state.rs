//! The in-memory catalog: SST identifiers and handles, the sealed memtables
//! awaiting flush, and the shared database state the flush path mutates.

use vstd::prelude::*;

use crate::error::SlateDBError;

verus! {

/// Identifier of a persisted SST. `Wal` carries a monotonic sequence number;
/// `Compacted` carries a time-sortable 128-bit ULID. The flush path always
/// mints `Compacted` identifiers.
#[derive(Clone, Copy, Debug, PartialEq, Eq, Structural)]
pub enum SsTableId {
    Wal(u64),
    Compacted(u128),
}

/// A sealed in-memory table awaiting flush, summarised by what the SST writer
/// needs from it: its key range and row count. `table_id` names the table so
/// that its one-shot notifications can be traced in the flush event log.
#[derive(Clone, Copy, Debug, PartialEq, Eq, Structural)]
pub struct ImmutableMemtable {
    pub table_id: u64,
    pub first_key: u64,
    pub last_key: u64,
    pub entry_count: u64,
}

/// An opaque descriptor of a persisted SST, returned by the SST writer and
/// owned by the catalog once inserted. Handles are never mutated.
#[derive(Clone, Copy, Debug, PartialEq, Eq, Structural)]
pub struct SsTableHandle {
    pub id: SsTableId,
    pub first_key: u64,
    pub last_key: u64,
    pub entry_count: u64,
}

/// True when `handle` describes the SST that the writer built from `table`:
/// everything but the freshly minted identifier is pinned down.
pub open spec fn handle_covers_table(handle: SsTableHandle, table: ImmutableMemtable) -> bool {
    &&& handle.first_key == table.first_key
    &&& handle.last_key == table.last_key
    &&& handle.entry_count == table.entry_count
}

/// The durable catalog: the L0 run (newest first) plus the state owned by the
/// compactor task, opaque to the flush path and carried through unchanged.
#[verifier::ext_equal]
#[derive(Debug)]
pub struct CoreDbState {
    /// L0 SST handles, newest first.
    pub l0: Vec<SsTableHandle>,
    /// A checkpoint owned by the compactor; the flush path never reads it,
    /// only adopts the latest persisted value when it refreshes.
    pub compactor_checkpoint: u64,
}

/// The mathematical content of a catalog.
#[verifier::ext_equal]
pub struct CoreDbStateView {
    pub l0: Seq<SsTableHandle>,
    pub compactor_checkpoint: u64,
}

impl View for CoreDbState {
    type V = CoreDbStateView;

    open spec fn view(&self) -> CoreDbStateView {
        CoreDbStateView { l0: self.l0@, compactor_checkpoint: self.compactor_checkpoint }
    }
}

impl CoreDbState {
    /// An empty catalog, used when bootstrapping a store with no manifest.
    pub fn new() -> (r: CoreDbState)
        ensures
            r.l0@ == Seq::<SsTableHandle>::empty(),
            r.compactor_checkpoint == 0,
    {
        CoreDbState { l0: Vec::new(), compactor_checkpoint: 0 }
    }

    /// An exact copy, taken so that a snapshot can leave the shared state's
    /// critical section before any I/O happens.
    pub fn clone_core(&self) -> (r: CoreDbState)
        ensures
            r@ == self@,
    {
        let mut l0: Vec<SsTableHandle> = Vec::new();
        let mut i: usize = 0;
        while i < self.l0.len()
            invariant
                i <= self.l0.len(),
                l0@ == self.l0@.take(i as int),
            decreases self.l0.len() - i,
        {
            l0.push(self.l0[i]);
            i = i + 1;
        }
        let r = CoreDbState { l0, compactor_checkpoint: self.compactor_checkpoint };
        proof {
            assert(r@.l0 =~= self@.l0);
            assert(r@ =~= self@);
        }
        r
    }
}

/// The shared database state guarded by the reader/writer lock in a running
/// process: the durable catalog plus the process-local queue of immutable
/// memtables. The queue holds the newest memtable at index 0 (the front) and
/// the oldest at the end (the back); the flush path drains from the back.
#[verifier::ext_equal]
#[derive(Debug)]
pub struct DbState {
    pub core: CoreDbState,
    pub imm_memtable: Vec<ImmutableMemtable>,
}

impl DbState {
    pub fn new(core: CoreDbState) -> (r: DbState)
        ensures
            r.core == core,
            r.imm_memtable@ == Seq::<ImmutableMemtable>::empty(),
    {
        DbState { core, imm_memtable: Vec::new() }
    }

    /// Replaces what the manifest owns with the freshly read catalog while
    /// keeping what this process owns: the compactor's checkpoint is adopted
    /// from the manifest, the local L0 run (this process is its only writer)
    /// and the local immutable-memtable queue are preserved.
    pub fn refresh_db_state(&mut self, core: &CoreDbState)
        ensures
            final(self).core.l0 == old(self).core.l0,
            final(self).core.compactor_checkpoint == core.compactor_checkpoint,
            final(self).imm_memtable == old(self).imm_memtable,
    {
        self.core.compactor_checkpoint = core.compactor_checkpoint;
    }

    /// The paired transition at the heart of the flush: pop the oldest
    /// immutable memtable from the back of the queue and push its handle onto
    /// the front of L0, as a single step, so that no observer ever sees the
    /// table absent from both places or present in both.
    pub fn move_imm_memtable_to_l0(&mut self, table: &ImmutableMemtable, handle: SsTableHandle)
        requires
            old(self).imm_memtable@.len() > 0,
            old(self).imm_memtable@.last() == *table,
        ensures
            final(self).imm_memtable@ == old(self).imm_memtable@.drop_last(),
            final(self).core.l0@ == seq![handle] + old(self).core.l0@,
            final(self).core.compactor_checkpoint == old(self).core.compactor_checkpoint,
    {
        let _ = self.imm_memtable.pop();
        self.core.l0.insert(0, handle);
        proof {
            assert(self.core.l0@ =~= seq![handle] + old(self).core.l0@);
        }
    }
}

/// Configuration consumed by the flush path. `l0_max_ssts` bounds the L0 run;
/// `manifest_poll_interval_ms` paces the scheduler's timer tick (the tick
/// itself lives with the runtime, outside this crate).
#[derive(Clone, Copy, Debug)]
pub struct DbOptions {
    pub l0_max_ssts: usize,
    pub manifest_poll_interval_ms: u64,
}

/// Counters kept by a running database.
#[derive(Clone, Copy, Debug)]
pub struct DbStats {
    pub immutable_memtable_flushes: u64,
}

/// A one-shot notification fired by the flush path, recorded in the order the
/// signals fire. `FlushedToL0` releases readers that need query visibility of
/// the new SST; `Durable` releases clients awaiting crash survival, and fires
/// only after the catalog naming the SST has been persisted.
#[derive(Clone, Copy, Debug, PartialEq, Eq, Structural)]
pub enum FlushNotification {
    FlushedToL0,
    Durable,
}

/// One entry of the flush event log: which sealed table was signalled, and
/// which of its two one-shots fired.
#[derive(Clone, Copy, Debug, PartialEq, Eq, Structural)]
pub struct FlushEvent {
    pub table_id: u64,
    pub notification: FlushNotification,
}

/// The database-wide state a flush scheduler works against: the shared
/// catalog, the options, the counters, the latched first fatal error, and the
/// log of one-shot notifications in the order they fired.
#[verifier::ext_equal]
#[derive(Debug)]
pub struct DbInner {
    pub state: DbState,
    pub options: DbOptions,
    pub db_stats: DbStats,
    pub first_error: Option<SlateDBError>,
    pub events: Vec<FlushEvent>,
}

impl DbInner {
    pub fn new(core: CoreDbState, options: DbOptions) -> (r: DbInner)
        requires
            options.l0_max_ssts >= 1,
        ensures
            r.state.core == core,
            r.state.imm_memtable@ == Seq::<ImmutableMemtable>::empty(),
            r.options == options,
            r.db_stats.immutable_memtable_flushes == 0,
            r.first_error is None,
            r.events@ == Seq::<FlushEvent>::empty(),
    {
        DbInner {
            state: DbState::new(core),
            options,
            db_stats: DbStats { immutable_memtable_flushes: 0 },
            first_error: None,
            events: Vec::new(),
        }
    }

    /// Seals the active memtable onto the front of the immutable queue. In a
    /// running database the write path performs this rotation.
    pub fn rotate_memtable(&mut self, table: ImmutableMemtable)
        ensures
            final(self).state.imm_memtable@ == seq![table] + old(self).state.imm_memtable@,
            final(self).state.core == old(self).state.core,
            final(self).options == old(self).options,
            final(self).db_stats == old(self).db_stats,
            final(self).first_error == old(self).first_error,
            final(self).events == old(self).events,
    {
        self.state.imm_memtable.insert(0, table);
        proof {
            assert(self.state.imm_memtable@ =~= seq![table] + old(self).state.imm_memtable@);
        }
    }

    /// Latches the first fatal error: once set, later errors are dropped and
    /// user operations fail fast with the latched one.
    pub fn set_error_if_none(&mut self, err: SlateDBError)
        ensures
            final(self).first_error == (if old(self).first_error is Some {
                old(self).first_error
            } else {
                Some(err)
            }),
            final(self).state == old(self).state,
            final(self).options == old(self).options,
            final(self).db_stats == old(self).db_stats,
            final(self).events == old(self).events,
    {
        if self.first_error.is_none() {
            self.first_error = Some(err);
        }
    }
}

} // verus!
