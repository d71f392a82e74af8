//! The memtable flush scheduler: drains the immutable-memtable queue into
//! L0, publishes the catalog through the fenceable manifest, and fires the
//! per-table one-shot notifications in the load-bearing order
//! "mutate state, notify L0, persist manifest, notify durable".

use vstd::prelude::*;

use crate::db_state::{handle_covers_table, DbInner, FlushEvent, FlushNotification,
    ImmutableMemtable, SsTableId};
use crate::error::SlateDBError;
use crate::manifest_store::{FenceableManifest, ManifestStore, ManifestView};

verus! {

/// The command vocabulary of the flush task's inbound channel.
#[derive(Clone, Copy, Debug, PartialEq, Eq, Structural)]
pub enum MemtableFlushThreadMsg {
    Shutdown,
    FlushImmutableMemtables,
}

/// One message as it arrives on the command channel: the command, whether the
/// sender attached a one-shot reply channel, and whether that channel's
/// receiver has already gone away (in which case sending the reply fails).
#[derive(Clone, Copy, Debug, PartialEq, Eq, Structural)]
pub struct FlushMsg {
    pub msg: MemtableFlushThreadMsg,
    pub wants_reply: bool,
    pub reply_dropped: bool,
}

/// The flushed-to-L0 one-shot of `t`, as an event-log entry.
pub open spec fn l0_event(t: ImmutableMemtable) -> FlushEvent {
    FlushEvent { table_id: t.table_id, notification: FlushNotification::FlushedToL0 }
}

/// The durable one-shot of `t`, as an event-log entry.
pub open spec fn durable_event(t: ImmutableMemtable) -> FlushEvent {
    FlushEvent { table_id: t.table_id, notification: FlushNotification::Durable }
}

/// The notifications fired by draining the `k` oldest entries of the queue
/// `s` (whose front, index 0, is newest): the back of the queue goes first,
/// and each table's flushed-to-L0 signal strictly precedes its durable one.
pub open spec fn drain_events(s: Seq<ImmutableMemtable>, k: nat) -> Seq<FlushEvent>
    recommends
        k <= s.len(),
    decreases k,
{
    if k == 0 {
        Seq::empty()
    } else {
        seq![l0_event(s.last()), durable_event(s.last())] + drain_events(
            s.drop_last(),
            (k - 1) as nat,
        )
    }
}

/// Draining one more table appends its pair of notifications at the end of
/// the log.
pub proof fn lemma_drain_events_step(s: Seq<ImmutableMemtable>, k: nat)
    requires
        k < s.len(),
    ensures
        drain_events(s, k + 1) == drain_events(s, k) + seq![
            l0_event(s[s.len() - 1 - k]),
            durable_event(s[s.len() - 1 - k]),
        ],
    decreases k,
{
    if k == 0 {
        assert(drain_events(s.drop_last(), 0) == Seq::<FlushEvent>::empty());
        assert(drain_events(s, 0) == Seq::<FlushEvent>::empty());
        assert(drain_events(s, 1) =~= drain_events(s, 0) + seq![
            l0_event(s[s.len() - 1]),
            durable_event(s[s.len() - 1]),
        ]);
    } else {
        lemma_drain_events_step(s.drop_last(), (k - 1) as nat);
        assert(s.drop_last()[s.drop_last().len() - 1 - (k - 1)] == s[s.len() - 1 - k]);
        assert(drain_events(s, k + 1) =~= drain_events(s, k) + seq![
            l0_event(s[s.len() - 1 - k]),
            durable_event(s[s.len() - 1 - k]),
        ]);
    }
}

/// Flush FIFO and notification ordering: draining the `k` oldest tables of
/// the queue `s` fires exactly `2 * k` one-shots; the `j`-th drained table
/// (counting from the oldest, `s[s.len() - 1]`) has its flushed-to-L0 signal
/// at position `2 * j` and its durable signal at position `2 * j + 1`. Hence
/// durable signals fire oldest table first, and every table's flushed-to-L0
/// signal strictly precedes its durable signal.
pub proof fn lemma_drain_events_order(s: Seq<ImmutableMemtable>, k: nat)
    requires
        k <= s.len(),
    ensures
        drain_events(s, k).len() == 2 * k,
        forall|j: int|
            0 <= j < k ==> #[trigger] drain_events(s, k)[2 * j] == l0_event(s[s.len() - 1 - j]),
        forall|j: int|
            0 <= j < k ==> #[trigger] drain_events(s, k)[2 * j + 1] == durable_event(
                s[s.len() - 1 - j],
            ),
    decreases k,
{
    if k > 0 {
        lemma_drain_events_order(s, (k - 1) as nat);
        lemma_drain_events_step(s, (k - 1) as nat);
        assert forall|j: int| 0 <= j < k implies #[trigger] drain_events(s, k)[2 * j] == l0_event(
            s[s.len() - 1 - j],
        ) && drain_events(s, k)[2 * j + 1] == durable_event(s[s.len() - 1 - j]) by {
            if j < k - 1 {
                assert(drain_events(s, k)[2 * j] == drain_events(s, (k - 1) as nat)[2 * j]);
                assert(drain_events(s, k)[2 * j + 1] == drain_events(s, (k - 1) as nat)[2 * j + 1]);
            }
        }
    }
}

/// Relies on ulid::Ulid::generate: a fresh, time-prefixed, random 128-bit
/// identifier for the SST about to be written. Its value depends on the
/// clock and on randomness, so nothing is assumed of it beyond its variant.
#[verifier::external_body]
fn fresh_compacted_id() -> (r: SsTableId)
    ensures
        r is Compacted,
{
    SsTableId::Compacted(ulid::Ulid::generate().0)
}

/// The single long-lived flusher: the shared database state it drains and
/// the fenceable manifest it publishes through.
#[verifier::ext_equal]
#[derive(Debug)]
pub struct MemtableFlusher {
    pub db: DbInner,
    pub manifest: FenceableManifest,
}

impl MemtableFlusher {
    pub fn new(db: DbInner, manifest: FenceableManifest) -> (r: MemtableFlusher)
        ensures
            r.db == db,
            r.manifest == manifest,
    {
        MemtableFlusher { db, manifest }
    }

    /// Reads the latest manifest and refreshes the shared state from it; a
    /// strictly newer epoch fences this process instead.
    pub fn load_manifest(&mut self, store: &ManifestStore) -> (r: Result<(), SlateDBError>)
        ensures
            final(self).db.options == old(self).db.options,
            final(self).db.db_stats == old(self).db.db_stats,
            final(self).db.first_error == old(self).db.first_error,
            final(self).db.events == old(self).db.events,
            final(self).db.state.imm_memtable == old(self).db.state.imm_memtable,
            final(self).db.state.core.l0 == old(self).db.state.core.l0,
            final(self).manifest.local_epoch == old(self).manifest.local_epoch,
            store.manifests@.len() == 0 ==> (r matches Err(e) && e
                == SlateDBError::LatestManifestMissing && *final(self) == *old(self)),
            store.manifests@.len() > 0 && store.latest_epoch() > old(self).manifest.local_epoch
                ==> (r matches Err(e) && e == SlateDBError::Fenced && final(self).manifest.fenced
                && final(self).db == old(self).db && final(self).manifest.local_version == old(self).manifest.local_version),
            store.manifests@.len() > 0 && store.latest_epoch() <= old(self).manifest.local_epoch
                ==> (r is Ok && final(self).db.state.core.compactor_checkpoint
                == store.latest_view().core.compactor_checkpoint && final(self).manifest.local_version == store.manifests@.len() && final(self).manifest.fenced
                == old(self).manifest.fenced && final(self).manifest.cached@
                == store.latest_view().core && final(self).manifest.valid_for(store)),
    {
        let current_manifest = match self.manifest.refresh(store) {
            Ok(c) => c,
            Err(e) => {
                return Err(e);
            },
        };
        self.db.state.refresh_db_state(&current_manifest);
        Ok(())
    }

    /// Snapshots the current catalog and publishes it at the next version.
    pub fn write_manifest(&mut self, store: &mut ManifestStore) -> (r: Result<(), SlateDBError>)
        requires
            old(self).manifest.fenced || (old(self).manifest.valid_for(&*old(store)) && old(store).has_capacity()),
        ensures
            final(self).db == old(self).db,
            final(self).manifest.local_epoch == old(self).manifest.local_epoch,
            final(self).manifest.fenced == old(self).manifest.fenced,
            final(self).manifest.cached == old(self).manifest.cached,
            final(store).ssts == old(store).ssts,
            final(store).fail_sst_writes == old(store).fail_sst_writes,
            old(self).manifest.fenced ==> (r matches Err(e) && e == SlateDBError::Fenced && *final(store) == *old(store) && *final(self) == *old(self)),
            !old(self).manifest.fenced ==> ({
                let applied = old(store).pending_compactor_checkpoints@.len() > 0 && old(store).manifests@.len() > 0;
                &&& (applied ==> (r matches Err(e) && e == SlateDBError::ManifestVersionExists
                    && final(store).manifest_seq() == old(store).manifest_seq() + seq![
                    old(store).compactor_manifest_view(),
                ] && final(store).pending_compactor_checkpoints@ == old(store).pending_compactor_checkpoints@.skip(1) && final(self).manifest.local_version
                    == old(self).manifest.local_version))
                &&& (!applied ==> {
                    &&& (old(self).manifest.local_version == old(store).manifests@.len() ==> (
                    r is Ok && final(store).manifest_seq() == old(store).manifest_seq() + seq![
                        ManifestView {
                            epoch: old(self).manifest.local_epoch,
                            core: old(self).db.state.core@,
                        },
                    ] && final(self).manifest.local_version == old(self).manifest.local_version + 1
                        && final(store).pending_compactor_checkpoints == old(store).pending_compactor_checkpoints && final(self).manifest.valid_for(
                        &*final(store),
                    )))
                    &&& (old(self).manifest.local_version < old(store).manifests@.len() ==> (
                    r matches Err(e) && e == SlateDBError::ManifestVersionExists && *final(store)
                        == *old(store) && *final(self) == *old(self)))
                })
            }),
            old(store).epochs_monotone() && (r is Ok ==> (old(store).manifests@.len() > 0 ==> old(self).manifest.local_epoch >= old(store).latest_epoch())) ==> final(store).epochs_monotone(),
    {
        let core = self.db.state.core.clone_core();
        let r = self.manifest.update_db_state(store, core);
        proof {
            if !old(self).manifest.fenced && r is Ok {
                assert(ManifestView {
                    epoch: old(self).manifest.local_epoch,
                    core: old(self).db.state.core@,
                } =~= ManifestView { epoch: old(self).manifest.local_epoch, core: core@ });
            }
        }
        r
    }

    /// The refresh-then-write retry loop: every publish refreshes from
    /// storage first so the manifest reflects the current catalog, and a
    /// lost version race (`ManifestVersionExists`) is the only error that is
    /// swallowed and retried; `Fenced` and everything else propagates.
    pub fn write_manifest_safely(&mut self, store: &mut ManifestStore) -> (r: Result<
        (),
        SlateDBError,
    >)
        requires
            old(store).has_capacity(),
            old(self).manifest.fenced || old(self).manifest.valid_for(&*old(store)),
        ensures
            final(self).db.options == old(self).db.options,
            final(self).db.db_stats == old(self).db.db_stats,
            final(self).db.first_error == old(self).db.first_error,
            final(self).db.events == old(self).db.events,
            final(self).db.state.imm_memtable == old(self).db.state.imm_memtable,
            final(self).db.state.core.l0 == old(self).db.state.core.l0,
            final(self).manifest.local_epoch == old(self).manifest.local_epoch,
            final(store).ssts == old(store).ssts,
            final(store).fail_sst_writes == old(store).fail_sst_writes,
            old(store).manifest_seq().is_prefix_of(final(store).manifest_seq()),
            final(store).manifests@.len() + final(store).pending_compactor_checkpoints@.len()
                <= old(store).manifests@.len() + old(store).pending_compactor_checkpoints@.len() + 1,
            old(store).epochs_monotone() ==> final(store).epochs_monotone(),
            r matches Err(e) ==> e != SlateDBError::ManifestVersionExists,
            r is Ok ==> ({
                &&& !final(self).manifest.fenced
                &&& final(store).manifests@.len() > 0
                &&& final(store).pending_compactor_checkpoints@.len() == 0
                &&& final(store).manifests@.len() == old(store).manifests@.len() + old(store).pending_compactor_checkpoints@.len() + 1
                &&& final(store).latest_view() == (ManifestView {
                    epoch: old(self).manifest.local_epoch,
                    core: final(self).db.state.core@,
                })
                &&& final(self).manifest.local_version == final(store).manifests@.len()
                &&& final(self).manifest.valid_for(&*final(store))
                &&& final(self).db.state.core.compactor_checkpoint == (if old(store).pending_compactor_checkpoints@.len() > 0 {
                    old(store).pending_compactor_checkpoints@.last()
                } else {
                    old(store).latest_view().core.compactor_checkpoint
                })
            }),
            old(store).manifests@.len() == 0 ==> (r matches Err(e) && e
                == SlateDBError::LatestManifestMissing && *final(store) == *old(store) && *final(self) == *old(self)),
            old(store).manifests@.len() > 0 && old(store).latest_epoch() > old(self).manifest.local_epoch ==> (r matches Err(e) && e == SlateDBError::Fenced && *final(store) == *old(store) && final(self).manifest.fenced && final(self).db == old(self).db),
            old(store).manifests@.len() > 0 && old(store).latest_epoch() <= old(self).manifest.local_epoch && !old(self).manifest.fenced ==> r is Ok,
            final(self).manifest.fenced || final(self).manifest.valid_for(&*final(store)),
            old(self).manifest.fenced ==> final(self).manifest.fenced,
    {
        loop
            invariant
                self.db.options == old(self).db.options,
                self.db.db_stats == old(self).db.db_stats,
                self.db.first_error == old(self).db.first_error,
                self.db.events == old(self).db.events,
                self.db.state.imm_memtable == old(self).db.state.imm_memtable,
                self.db.state.core.l0 == old(self).db.state.core.l0,
                self.manifest.local_epoch == old(self).manifest.local_epoch,
                self.manifest.fenced == old(self).manifest.fenced,
                store.ssts == old(store).ssts,
                store.fail_sst_writes == old(store).fail_sst_writes,
                old(store).manifest_seq().is_prefix_of(store.manifest_seq()),
                store.manifests@.len() + store.pending_compactor_checkpoints@.len() == old(store).manifests@.len() + old(store).pending_compactor_checkpoints@.len(),
                old(store).has_capacity(),
                old(store).epochs_monotone() ==> store.epochs_monotone(),
                self.manifest.fenced || self.manifest.valid_for(&*store),
                store.manifests@.len() > 0 <==> old(store).manifests@.len() > 0,
                store.manifests@.len() > 0 ==> store.latest_epoch() == old(store).latest_epoch(),
                store.pending_compactor_checkpoints@ == old(store).pending_compactor_checkpoints@.skip(
                    old(store).pending_compactor_checkpoints@.len()
                        - store.pending_compactor_checkpoints@.len(),
                ),
                store.manifests@.len() > 0 ==> store.latest_view().core.compactor_checkpoint == (
                if store.pending_compactor_checkpoints@.len() < old(store).pending_compactor_checkpoints@.len() {
                    old(store).pending_compactor_checkpoints@[old(store).pending_compactor_checkpoints@.len()
                        - store.pending_compactor_checkpoints@.len() - 1]
                } else {
                    old(store).latest_view().core.compactor_checkpoint
                }),
                old(store).manifests@.len() == 0 ==> *store == *old(store) && *self == *old(self),
                old(store).manifests@.len() > 0 && old(store).latest_epoch() > old(self).manifest.local_epoch ==> *store == *old(store) && *self == *old(self),
            decreases store.pending_compactor_checkpoints@.len(),
        {
            match self.load_manifest(store) {
                Ok(u) => {
                },
                Err(e) => {
                    return Err(e);
                },
            }
            match self.write_manifest(store) {
                Ok(u) => {
                    proof {
                        assert(store.manifest_seq().len() == store.manifests@.len());
                        assert(store.manifest_seq().last() == store.latest_view());
                    }
                    return Ok(());
                },
                Err(e) => match e {
                    SlateDBError::ManifestVersionExists => {
                        proof {
                            assert(store.manifest_seq().len() == store.manifests@.len());
                            assert(store.manifest_seq().last() == store.latest_view());
                        }
                    },
                    _ => {
                        return Err(e);
                    },
                },
            }
        }
    }

    /// The critical-section choreography: while the L0 cap has room and the
    /// queue is not empty, persist the oldest immutable memtable as an SST,
    /// swap it for its handle in the shared state in a single step, fire its
    /// flushed-to-L0 one-shot, publish the catalog, and only then fire its
    /// durable one-shot. Hitting the cap asserts back-pressure: the call
    /// stops without draining and returns `Ok`. A failed upload leaves the
    /// table at the back of the queue for the next invocation.
    #[verifier::rlimit(50)]
    pub fn flush_imm_memtables_to_l0(&mut self, store: &mut ManifestStore) -> (r: Result<
        (),
        SlateDBError,
    >)
        requires
            old(self).manifest.fenced || old(self).manifest.valid_for(&*old(store)),
            old(store).manifests@.len() + old(store).pending_compactor_checkpoints@.len() + old(self).db.state.imm_memtable@.len() < u64::MAX,
        ensures
            final(self).db.options == old(self).db.options,
            final(self).db.db_stats == old(self).db.db_stats,
            final(self).db.first_error == old(self).db.first_error,
            final(self).manifest.local_epoch == old(self).manifest.local_epoch,
            final(store).fail_sst_writes <= old(store).fail_sst_writes,
            old(store).manifest_seq().is_prefix_of(final(store).manifest_seq()),
            old(store).epochs_monotone() ==> final(store).epochs_monotone(),
            r matches Err(e) ==> e != SlateDBError::ManifestVersionExists,
            ({
                let s = old(self).db.state.imm_memtable@;
                let n = s.len();
                let pre_l0 = old(self).db.state.core.l0@;
                let k = n - final(self).db.state.imm_memtable@.len();
                let max = old(self).db.options.l0_max_ssts;
                &&& 0 <= k <= n
                &&& final(self).db.state.imm_memtable@ == s.take(n - k)
                &&& final(self).db.state.core.l0@.len() == k + pre_l0.len()
                &&& (forall|j: int|
                    0 <= j < k ==> handle_covers_table(
                        #[trigger] final(self).db.state.core.l0@[j],
                        s[n - k + j],
                    ) && final(self).db.state.core.l0@[j].id is Compacted)
                &&& (forall|j: int|
                    0 <= j < pre_l0.len() ==> final(self).db.state.core.l0@[k + j]
                        == #[trigger] pre_l0[j])
                &&& final(store).ssts@.len() == old(store).ssts@.len() + k
                &&& (forall|j: int|
                    0 <= j < old(store).ssts@.len() ==> final(store).ssts@[j] == #[trigger] old(store).ssts@[j])
                &&& (forall|j: int|
                    0 <= j < k ==> #[trigger] final(store).ssts@[old(store).ssts@.len() + j]
                        == final(self).db.state.core.l0@[k - 1 - j].id)
                &&& (pre_l0.len() >= max ==> r is Ok && k == 0 && *final(self) == *old(self)
                    && *final(store) == *old(store))
                &&& (r is Ok ==> final(self).db.events@ == old(self).db.events@ + drain_events(
                    s,
                    k as nat,
                ))
                &&& (r is Ok && pre_l0.len() < max ==> k == (if n <= max - pre_l0.len() {
                    n as int
                } else {
                    max - pre_l0.len()
                }))
                &&& (r is Ok && k >= 1 ==> final(store).manifests@.len() > 0 && final(store).latest_view() == (ManifestView {
                    epoch: old(self).manifest.local_epoch,
                    core: final(self).db.state.core@,
                }) && final(store).pending_compactor_checkpoints@.len() == 0 && !final(self).manifest.fenced)
                &&& (r is Err ==> final(self).db.events@ == old(self).db.events@ + drain_events(
                    s,
                    k as nat,
                ) || (k >= 1 && final(self).db.events@ == old(self).db.events@ + drain_events(
                    s,
                    (k - 1) as nat,
                ).push(l0_event(s[n - k]))))
                &&& (r is Ok && k == 0 ==> *final(self) == *old(self) && *final(store) == *old(store))
                &&& (r is Ok ==> flush_drained(&*old(self), &*final(self), &*old(store), &*final(store)))
                &&& (r is Ok && k >= 1 ==> final(store).manifests@.len() == old(store).manifests@.len() + old(store).pending_compactor_checkpoints@.len() + k)
                &&& (pre_l0.len() < max && n > 0 && old(store).fail_sst_writes > 0 ==> (
                r matches Err(e) && e == SlateDBError::ObjectStoreError) && k == 0 && final(store).manifests == old(store).manifests && final(store).pending_compactor_checkpoints
                    == old(store).pending_compactor_checkpoints && final(store).fail_sst_writes
                    == old(store).fail_sst_writes - 1)
                &&& (!old(self).manifest.fenced && old(store).manifests@.len() > 0 && old(store).latest_epoch() <= old(self).manifest.local_epoch && old(store).fail_sst_writes
                    == 0 ==> r is Ok)
            }),
            final(self).manifest.fenced || final(self).manifest.valid_for(&*final(store)),
            old(self).manifest.fenced ==> final(self).manifest.fenced,
            final(store).manifests@.len() + final(store).pending_compactor_checkpoints@.len()
                + final(self).db.state.imm_memtable@.len() <= old(store).manifests@.len() + old(store).pending_compactor_checkpoints@.len() + old(self).db.state.imm_memtable@.len(),
            !old(self).manifest.fenced && old(store).manifests@.len() > 0 && old(store).latest_epoch() <= old(self).manifest.local_epoch ==> !final(self).manifest.fenced
                && final(store).manifests@.len() > 0 && final(store).latest_epoch() <= old(self).manifest.local_epoch,
    {
        let ghost s = old(self).db.state.imm_memtable@;
        let ghost n = s.len();
        let ghost pre_l0 = old(self).db.state.core.l0@;
        let ghost pre_ssts = old(store).ssts@.len() as int;
        loop
            invariant
                self.db.options == old(self).db.options,
                self.db.db_stats == old(self).db.db_stats,
                self.db.first_error == old(self).db.first_error,
                self.manifest.local_epoch == old(self).manifest.local_epoch,
                store.fail_sst_writes <= old(store).fail_sst_writes,
                old(store).manifest_seq().is_prefix_of(store.manifest_seq()),
                old(store).epochs_monotone() ==> store.epochs_monotone(),
                self.manifest.fenced || self.manifest.valid_for(&*store),
                s == old(self).db.state.imm_memtable@ && n == s.len(),
                pre_l0 == old(self).db.state.core.l0@,
                pre_ssts == old(store).ssts@.len(),
                store.manifests@.len() + store.pending_compactor_checkpoints@.len()
                    + self.db.state.imm_memtable@.len() <= old(store).manifests@.len() + old(store).pending_compactor_checkpoints@.len() + n,
                old(store).manifests@.len() + old(store).pending_compactor_checkpoints@.len() + n
                    < u64::MAX,
                ({
                    let k = n - self.db.state.imm_memtable@.len();
                    &&& 0 <= k <= n
                    &&& self.db.state.imm_memtable@ == s.take(n - k)
                    &&& self.db.state.core.l0@.len() == k + pre_l0.len()
                    &&& (forall|j: int|
                        0 <= j < k ==> handle_covers_table(
                            #[trigger] self.db.state.core.l0@[j],
                            s[n - k + j],
                        ) && self.db.state.core.l0@[j].id is Compacted)
                    &&& (forall|j: int|
                        0 <= j < pre_l0.len() ==> self.db.state.core.l0@[k + j]
                            == #[trigger] pre_l0[j])
                    &&& store.ssts@.len() == pre_ssts + k
                    &&& (forall|j: int|
                        0 <= j < pre_ssts ==> store.ssts@[j] == #[trigger] old(store).ssts@[j])
                    &&& (forall|j: int|
                        0 <= j < k ==> #[trigger] store.ssts@[pre_ssts + j]
                            == self.db.state.core.l0@[k - 1 - j].id)
                    &&& self.db.events@ == old(self).db.events@ + drain_events(s, k as nat)
                    &&& (k > 0 ==> !self.manifest.fenced && store.manifests@.len() > 0
                        && store.latest_view() == (ManifestView {
                            epoch: old(self).manifest.local_epoch,
                            core: self.db.state.core@,
                        })
                        && store.pending_compactor_checkpoints@.len() == 0
                        && store.manifests@.len() == old(store).manifests@.len() + old(store).pending_compactor_checkpoints@.len() + k)
                }),
                old(store).fail_sst_writes > 0 ==> n - self.db.state.imm_memtable@.len() == 0,
                pre_l0.len() < old(self).db.options.l0_max_ssts ==> self.db.state.core.l0@.len()
                    <= old(self).db.options.l0_max_ssts,
                n - self.db.state.imm_memtable@.len() == 0 ==> *self == *old(self) && *store
                    == *old(store),
                old(self).manifest.fenced ==> self.manifest.fenced,
                pre_l0.len() >= old(self).db.options.l0_max_ssts ==> *self == *old(self) && *store
                    == *old(store),
                !old(self).manifest.fenced && old(store).manifests@.len() > 0 && old(store).latest_epoch() <= old(self).manifest.local_epoch ==> !self.manifest.fenced
                    && store.manifests@.len() > 0 && store.latest_epoch() <= old(self).manifest.local_epoch,
                store.fail_sst_writes == old(store).fail_sst_writes,
            decreases self.db.state.imm_memtable@.len(),
        {
            let ghost k_pre = n - self.db.state.imm_memtable@.len();
            if self.db.state.core.l0.len() >= self.db.options.l0_max_ssts {
                // Back-pressure: refuse to flush and leave the queue alone.
                return Ok(());
            }
            if self.db.state.imm_memtable.len() == 0 {
                return Ok(());
            }
            let idx = self.db.state.imm_memtable.len() - 1;
            let imm_memtable = self.db.state.imm_memtable[idx];
            let id = fresh_compacted_id();
            let sst_handle = match store.write_sst(id, &imm_memtable) {
                Ok(h) => h,
                Err(e) => {
                    return Err(e);
                },
            };
            self.db.state.move_imm_memtable_to_l0(&imm_memtable, sst_handle);
            self.db.events.push(
                FlushEvent {
                    table_id: imm_memtable.table_id,
                    notification: FlushNotification::FlushedToL0,
                },
            );
            proof {
                assert(self.db.state.imm_memtable@ =~= s.take(n - (k_pre + 1)));
                assert(self.db.events@ =~= (old(self).db.events@ + drain_events(s, k_pre as nat)
                    + seq![l0_event(s[n - (k_pre + 1)])]));
            }
            match self.write_manifest_safely(store) {
                Ok(u) => {
                },
                Err(e) => {
                    proof {
                        lemma_drain_events_step(s, k_pre as nat);
                        assert(self.db.events@ =~= old(self).db.events@ + drain_events(
                            s,
                            (k_pre + 1 - 1) as nat,
                        ).push(l0_event(s[n - (k_pre + 1)])));
                    }
                    return Err(e);
                },
            }
            self.db.events.push(
                FlushEvent {
                    table_id: imm_memtable.table_id,
                    notification: FlushNotification::Durable,
                },
            );
            proof {
                lemma_drain_events_step(s, k_pre as nat);
                assert(self.db.events@ =~= old(self).db.events@ + drain_events(
                    s,
                    (k_pre + 1) as nat,
                ));
            }
        }
    }
}

/// A counter bump that stops at the top of its range.
pub open spec fn saturating_inc(x: u64) -> u64 {
    if x < u64::MAX {
        (x + 1) as u64
    } else {
        x
    }
}

/// The state transition of a successful flush pass. With `s` the pre-state
/// queue (newest first) and `k = min(|s|, cap - |l0|)` tables drained (0
/// when the cap is already hit): the `k` oldest left the queue, their
/// handles lead L0 newest-first, their uploads extended the store's SST
/// objects in drain order, and both one-shots fired per drained table,
/// oldest first.
pub open spec fn flush_drained(
    pre_f: &MemtableFlusher,
    post_f: &MemtableFlusher,
    pre_s: &ManifestStore,
    post_s: &ManifestStore,
) -> bool {
    let s = pre_f.db.state.imm_memtable@;
    let n = s.len();
    let pre_l0 = pre_f.db.state.core.l0@;
    let max = pre_f.db.options.l0_max_ssts;
    let k = n - post_f.db.state.imm_memtable@.len();
    &&& 0 <= k <= n
    &&& k == (if pre_l0.len() >= max {
        0
    } else if n <= max - pre_l0.len() {
        n as int
    } else {
        max - pre_l0.len()
    })
    &&& post_f.db.state.imm_memtable@ == s.take(n - k)
    &&& post_f.db.state.core.l0@.len() == k + pre_l0.len()
    &&& (forall|j: int|
        0 <= j < k ==> handle_covers_table(#[trigger] post_f.db.state.core.l0@[j], s[n - k + j])
            && post_f.db.state.core.l0@[j].id is Compacted)
    &&& (forall|j: int|
        0 <= j < pre_l0.len() ==> post_f.db.state.core.l0@[k + j] == #[trigger] pre_l0[j])
    &&& post_f.db.events@ == pre_f.db.events@ + drain_events(s, k as nat)
    &&& post_s.ssts@.len() == pre_s.ssts@.len() + k
    &&& (forall|j: int|
        0 <= j < pre_s.ssts@.len() ==> post_s.ssts@[j] == #[trigger] pre_s.ssts@[j])
    &&& (forall|j: int|
        0 <= j < k ==> #[trigger] post_s.ssts@[pre_s.ssts@.len() + j]
            == post_f.db.state.core.l0@[k - 1 - j].id)
}

/// How one flush result is recorded in the database: a success bumps the
/// flush counter (saturating) and latches nothing; a failure leaves the
/// counter alone and is latched as the first fatal error.
pub open spec fn flush_result_recorded(
    pre_f: &MemtableFlusher,
    post_f: &MemtableFlusher,
    fr: Result<(), SlateDBError>,
) -> bool {
    &&& (fr is Ok ==> post_f.db.db_stats.immutable_memtable_flushes == saturating_inc(
        pre_f.db.db_stats.immutable_memtable_flushes,
    ) && post_f.db.first_error == pre_f.db.first_error)
    &&& (fr matches Err(e) ==> e != SlateDBError::ManifestVersionExists && post_f.db.db_stats
        == pre_f.db.db_stats && post_f.db.first_error == (if pre_f.db.first_error is Some {
        pre_f.db.first_error
    } else {
        Some(e)
    }))
}

/// The counter movement a flush result permits: only a success bumps the
/// flush counter, and a failure always leaves a latched error behind.
pub open spec fn counter_tracks_result(
    pre_stats: u64,
    post_stats: u64,
    post_first: Option<SlateDBError>,
    fr: Result<(), SlateDBError>,
) -> bool {
    &&& (fr is Ok ==> post_stats == saturating_inc(pre_stats))
    &&& (fr is Err ==> post_stats == pre_stats && post_first is Some)
}

/// A second flush pass over an already-drained state drains nothing more
/// (the cap is hit or the queue is empty), so the two passes together are
/// the first one.
pub proof fn lemma_flush_drained_stutter(
    a: &MemtableFlusher,
    b: &MemtableFlusher,
    c: &MemtableFlusher,
    sa: &ManifestStore,
    sb: &ManifestStore,
    sc: &ManifestStore,
)
    requires
        flush_drained(a, b, sa, sb),
        flush_drained(b, c, sb, sc),
        b.db.options.l0_max_ssts == a.db.options.l0_max_ssts,
    ensures
        flush_drained(a, c, sa, sc),
        c.db.state.imm_memtable@.len() == b.db.state.imm_memtable@.len(),
{
    let s = a.db.state.imm_memtable@;
    let n = s.len();
    let pre_l0 = a.db.state.core.l0@;
    let max = a.db.options.l0_max_ssts;
    let k = n - b.db.state.imm_memtable@.len();
    let k2 = b.db.state.imm_memtable@.len() - c.db.state.imm_memtable@.len();
    if k2 > 0 {
        // the second pass can only drain when the cap has room and the
        // queue is nonempty, which the first pass's stopping rule rules out
        assert(b.db.state.core.l0@.len() < max);
        assert(b.db.state.imm_memtable@.len() > 0);
        assert(false);
    }
    assert(c.db.state.imm_memtable@ =~= b.db.state.imm_memtable@);
    assert(c.db.state.core.l0@ =~= b.db.state.core.l0@);
    assert(drain_events(b.db.state.imm_memtable@, 0) == Seq::<FlushEvent>::empty());
    assert(c.db.events@ =~= b.db.events@);
    assert(sc.ssts@ =~= sb.ssts@);
    assert(c.db.state.imm_memtable@ == s.take(n - k));
}

/// The flush scheduler task: the flusher it owns and whether `Shutdown` has
/// been received. The async loop around it, which selects over the periodic
/// timer tick and the command channel, makes no decision of its own: every
/// decision is one of the handlers below, and the loop runs until `Shutdown`
/// has been seen and the channel has been drained.
#[verifier::ext_equal]
#[derive(Debug)]
pub struct MemtableFlushTask {
    pub flusher: MemtableFlusher,
    pub is_stopped: bool,
}

impl MemtableFlushTask {
    /// The handlers stay within machine limits and inside the fencing
    /// protocol: the manifest either is fenced or tracks the store, and the
    /// version counter has room for the work at hand.
    pub open spec fn can_run(&self, store: &ManifestStore) -> bool {
        &&& self.flusher.manifest.fenced || self.flusher.manifest.valid_for(store)
        &&& store.manifests@.len() + store.pending_compactor_checkpoints@.len()
            + self.flusher.db.state.imm_memtable@.len() < u64::MAX
    }

    /// No error has fenced or failed this database and the store still
    /// belongs to this writer.
    pub open spec fn healthy(&self, store: &ManifestStore) -> bool {
        &&& !self.flusher.manifest.fenced
        &&& store.manifests@.len() > 0
        &&& store.latest_epoch() <= self.flusher.manifest.local_epoch
    }

    pub fn new(flusher: MemtableFlusher) -> (r: MemtableFlushTask)
        ensures
            r.flusher == flusher,
            !r.is_stopped,
    {
        MemtableFlushTask { flusher, is_stopped: false }
    }

    /// The timer-tick branch: when not stopped, reload the manifest and run
    /// the flush, latching the first error of either as the database's fatal
    /// error and counting successful flush passes.
    pub fn handle_tick(&mut self, store: &mut ManifestStore)
        requires
            old(self).is_stopped || old(self).can_run(&*old(store)),
        ensures
            final(self).is_stopped == old(self).is_stopped,
            final(self).flusher.db.options == old(self).flusher.db.options,
            final(self).flusher.manifest.local_epoch == old(self).flusher.manifest.local_epoch,
            old(self).is_stopped ==> *final(self) == *old(self) && *final(store) == *old(store),
            old(self).flusher.db.first_error is Some ==> final(self).flusher.db.first_error == old(self).flusher.db.first_error,
            !old(self).is_stopped && old(store).manifests@.len() > 0 && old(store).latest_epoch()
                > old(self).flusher.manifest.local_epoch && old(self).flusher.db.first_error
                is None ==> final(self).flusher.manifest.fenced && final(self).flusher.db.first_error == Some(SlateDBError::Fenced),
            !old(self).is_stopped && old(store).manifests@.len() == 0 && old(self).flusher.db.first_error is None ==> final(self).flusher.db.first_error == Some(
                SlateDBError::LatestManifestMissing,
            ),
            !old(self).is_stopped && old(self).healthy(&*old(store)) && old(store).fail_sst_writes
                == 0 ==> final(self).flusher.db.first_error == old(self).flusher.db.first_error
                && final(self).flusher.db.db_stats.immutable_memtable_flushes == saturating_inc(
                old(self).flusher.db.db_stats.immutable_memtable_flushes,
            ) && final(self).healthy(&*final(store)),
            !old(self).is_stopped && old(self).healthy(&*old(store)) && old(store).fail_sst_writes
                == 0 ==> ({
                let k = old(self).flusher.db.state.imm_memtable@.len() - final(self).flusher.db.state.imm_memtable@.len();
                &&& flush_drained(&old(self).flusher, &final(self).flusher, &*old(store), &*final(store))
                &&& (k >= 1 ==> final(store).manifests@.len() == old(store).manifests@.len() + old(store).pending_compactor_checkpoints@.len() + k && final(store).latest_view() == (
                ManifestView {
                    epoch: old(self).flusher.manifest.local_epoch,
                    core: final(self).flusher.db.state.core@,
                }) && final(store).pending_compactor_checkpoints@.len() == 0)
                &&& (k == 0 ==> final(store).manifests == old(store).manifests && final(store).pending_compactor_checkpoints == old(store).pending_compactor_checkpoints)
                &&& final(store).fail_sst_writes == 0
            }),
            !old(self).is_stopped && old(store).manifests@.len() > 0 && old(store).latest_epoch()
                <= old(self).flusher.manifest.local_epoch ==> (exists|fr: Result<
                (),
                SlateDBError,
            >| flush_result_recorded(&old(self).flusher, &final(self).flusher, fr)),
            !old(self).is_stopped ==> (exists|fr: Result<(), SlateDBError>|
                counter_tracks_result(
                    old(self).flusher.db.db_stats.immutable_memtable_flushes,
                    final(self).flusher.db.db_stats.immutable_memtable_flushes,
                    final(self).flusher.db.first_error,
                    fr,
                )),
    {
        if self.is_stopped {
            return ;
        }
        match self.flusher.load_manifest(store) {
            Ok(u) => {
            },
            Err(e) => {
                self.flusher.db.set_error_if_none(e);
            },
        }
        let result = self.flusher.flush_imm_memtables_to_l0(store);
        match &result {
            Ok(u) => {
                if self.flusher.db.db_stats.immutable_memtable_flushes < u64::MAX {
                    self.flusher.db.db_stats.immutable_memtable_flushes =
                        self.flusher.db.db_stats.immutable_memtable_flushes + 1;
                }
            },
            Err(e) => {
                self.flusher.db.set_error_if_none(*e);
            },
        }
        proof {
            if old(store).manifests@.len() > 0 && old(store).latest_epoch() <= old(self).flusher.manifest.local_epoch {
                assert(flush_result_recorded(&old(self).flusher, &self.flusher, result));
            }
            assert(counter_tracks_result(
                old(self).flusher.db.db_stats.immutable_memtable_flushes,
                self.flusher.db.db_stats.immutable_memtable_flushes,
                self.flusher.db.first_error,
                result,
            ));
        }
    }

    /// The command branch. `Shutdown` only marks the task stopped: draining
    /// continues. `FlushImmutableMemtables` runs the flush; the result goes
    /// back on the reply one-shot when one was attached and its receiver is
    /// still there, and a failed flush — or an error reply that could not be
    /// delivered — is latched as the database's first fatal error.
    pub fn handle_message(&mut self, store: &mut ManifestStore, msg: FlushMsg) -> (reply: Option<
        Result<(), SlateDBError>,
    >)
        requires
            msg.msg is FlushImmutableMemtables ==> old(self).can_run(&*old(store)),
        ensures
            final(self).flusher.db.options == old(self).flusher.db.options,
            final(self).flusher.manifest.local_epoch == old(self).flusher.manifest.local_epoch,
            msg.msg is Shutdown ==> (final(self).is_stopped && final(self).flusher == old(self).flusher && *final(store) == *old(store) && reply is None),
            msg.msg is FlushImmutableMemtables ==> ({
                &&& final(self).is_stopped == old(self).is_stopped
                &&& (reply is Some <==> msg.wants_reply && !msg.reply_dropped)
                &&& (match reply {
                    Some(res) => match res {
                        Ok(u) => final(self).flusher.db.first_error == old(self).flusher.db.first_error
                            && final(self).flusher.db.db_stats.immutable_memtable_flushes
                            == saturating_inc(
                            old(self).flusher.db.db_stats.immutable_memtable_flushes,
                        ),
                        Err(e) => e != SlateDBError::ManifestVersionExists && final(self).flusher.db.first_error == (if old(self).flusher.db.first_error is Some {
                            old(self).flusher.db.first_error
                        } else {
                            Some(e)
                        }),
                    },
                    None => true,
                })
                &&& (old(self).flusher.db.first_error is Some ==> final(self).flusher.db.first_error == old(self).flusher.db.first_error)
                &&& (final(self).flusher.manifest.fenced || final(self).flusher.manifest.valid_for(
                    &*final(store),
                ))
                &&& final(store).manifests@.len()
                    + final(store).pending_compactor_checkpoints@.len() + final(self).flusher.db.state.imm_memtable@.len() <= old(store).manifests@.len() + old(store).pending_compactor_checkpoints@.len() + old(self).flusher.db.state.imm_memtable@.len()
                &&& (old(self).healthy(&*old(store)) ==> final(self).healthy(&*final(store))
                    && final(store).latest_epoch() <= old(self).flusher.manifest.local_epoch)
                &&& (old(self).healthy(&*old(store)) && old(store).fail_sst_writes == 0
                    && msg.wants_reply && !msg.reply_dropped ==> (reply matches Some(res) && res
                    is Ok))
                &&& (exists|fr: Result<(), SlateDBError>|
                    flush_result_recorded(&old(self).flusher, &final(self).flusher, fr) && (
                    reply is Some ==> reply == Some(fr)))
                &&& (old(store).fail_sst_writes == 0 ==> final(store).fail_sst_writes == 0)
                &&& (old(self).healthy(&*old(store)) && old(store).fail_sst_writes == 0 ==> ({
                    let k = old(self).flusher.db.state.imm_memtable@.len() - final(self).flusher.db.state.imm_memtable@.len();
                    &&& flush_drained(&old(self).flusher, &final(self).flusher, &*old(store), &*final(store))
                    &&& final(self).flusher.db.first_error == old(self).flusher.db.first_error
                    &&& final(self).flusher.db.db_stats.immutable_memtable_flushes
                        == saturating_inc(old(self).flusher.db.db_stats.immutable_memtable_flushes)
                    &&& (k >= 1 ==> final(store).manifests@.len() == old(store).manifests@.len()
                        + old(store).pending_compactor_checkpoints@.len() + k && final(store).latest_view() == (ManifestView {
                        epoch: old(self).flusher.manifest.local_epoch,
                        core: final(self).flusher.db.state.core@,
                    }) && final(store).pending_compactor_checkpoints@.len() == 0)
                    &&& (k == 0 ==> final(store).manifests == old(store).manifests && final(store).pending_compactor_checkpoints == old(store).pending_compactor_checkpoints
                        && final(self).flusher.db.state.core == old(self).flusher.db.state.core)
                }))
            }),
    {
        match msg.msg {
            MemtableFlushThreadMsg::Shutdown => {
                self.is_stopped = true;
                None
            },
            MemtableFlushThreadMsg::FlushImmutableMemtables => {
                let result = self.flusher.flush_imm_memtables_to_l0(store);
                match &result {
                    Ok(u) => {
                        if self.flusher.db.db_stats.immutable_memtable_flushes < u64::MAX {
                            self.flusher.db.db_stats.immutable_memtable_flushes =
                                self.flusher.db.db_stats.immutable_memtable_flushes + 1;
                        }
                    },
                    Err(e) => {
                        self.flusher.db.set_error_if_none(*e);
                    },
                }
                let reply = if msg.wants_reply {
                    if msg.reply_dropped {
                        // The caller went away: the reply cannot be delivered,
                        // and an undeliverable error reply is latched as fatal.
                        if let Err(e) = result {
                            self.flusher.db.set_error_if_none(e);
                        }
                        None
                    } else {
                        Some(result)
                    }
                } else {
                    None
                };
                proof {
                    assert(flush_result_recorded(&old(self).flusher, &self.flusher, result));
                }
                reply
            },
        }
    }

    /// Graceful drain: processes the buffered commands in order — `Shutdown`
    /// among them — answers every command whose reply channel is still open,
    /// and then publishes one final manifest so the stored catalog reflects
    /// everything flushed during the drain. An error from that last publish
    /// is not propagated: the process is tearing down.
    pub fn run_until_drained(&mut self, store: &mut ManifestStore, inbox: &Vec<FlushMsg>) -> (replies: Vec<
        Option<Result<(), SlateDBError>>,
    >)
        requires
            old(self).flusher.manifest.fenced || old(self).flusher.manifest.valid_for(
                &*old(store),
            ),
            old(store).manifests@.len() + old(store).pending_compactor_checkpoints@.len() + old(self).flusher.db.state.imm_memtable@.len() < u64::MAX,
            old(self).is_stopped || (exists|i: int|
                0 <= i < inbox@.len() && (#[trigger] inbox@[i].msg) is Shutdown),
        ensures
            final(self).is_stopped,
            final(self).flusher.db.options == old(self).flusher.db.options,
            final(self).flusher.manifest.local_epoch == old(self).flusher.manifest.local_epoch,
            replies@.len() == inbox@.len(),
            forall|i: int|
                0 <= i < inbox@.len() ==> ((#[trigger] replies@[i]) is Some <==> (inbox@[i].msg
                    is FlushImmutableMemtables && inbox@[i].wants_reply
                    && !inbox@[i].reply_dropped)),
            old(self).healthy(&*old(store)) ==> final(self).healthy(&*final(store)) && final(store).latest_view() == (ManifestView {
                epoch: old(self).flusher.manifest.local_epoch,
                core: final(self).flusher.db.state.core@,
            }),
            old(self).flusher.db.first_error is Some ==> final(self).flusher.db.first_error
                == old(self).flusher.db.first_error,
            (forall|i: int|
                0 <= i < inbox@.len() ==> !((#[trigger] inbox@[i].msg)
                    is FlushImmutableMemtables)) ==> final(self).flusher.db.first_error == old(self).flusher.db.first_error && final(self).flusher.db.db_stats == old(self).flusher.db.db_stats && final(self).flusher.db.events == old(self).flusher.db.events
                && final(self).flusher.db.state.imm_memtable == old(self).flusher.db.state.imm_memtable && final(self).flusher.db.state.core.l0 == old(self).flusher.db.state.core.l0,
            old(self).healthy(&*old(store)) && old(store).fail_sst_writes == 0 ==> ({
                let k = old(self).flusher.db.state.imm_memtable@.len() - final(self).flusher.db.state.imm_memtable@.len();
                &&& final(self).flusher.db.first_error == old(self).flusher.db.first_error
                &&& (forall|i: int|
                    0 <= i < inbox@.len() ==> ((#[trigger] replies@[i]) is Some ==> replies@[i]->Some_0 is Ok))
                &&& final(store).manifests@.len() == old(store).manifests@.len() + old(store).pending_compactor_checkpoints@.len() + k + 1
                &&& final(store).pending_compactor_checkpoints@.len() == 0
                &&& ((exists|i: int|
                    0 <= i < inbox@.len() && (#[trigger] inbox@[i].msg)
                        is FlushImmutableMemtables) ==> flush_drained(
                    &old(self).flusher,
                    &final(self).flusher,
                    &*old(store),
                    &*final(store),
                ))
            }),
    {
        let mut replies: Vec<Option<Result<(), SlateDBError>>> = Vec::new();
        let mut i: usize = 0;
        while i < inbox.len()
            invariant
                i <= inbox@.len(),
                replies@.len() == i,
                forall|j: int|
                    0 <= j < i ==> ((#[trigger] replies@[j]) is Some <==> (inbox@[j].msg
                        is FlushImmutableMemtables && inbox@[j].wants_reply
                        && !inbox@[j].reply_dropped)),
                self.flusher.db.options == old(self).flusher.db.options,
                self.flusher.manifest.local_epoch == old(self).flusher.manifest.local_epoch,
                self.flusher.manifest.fenced || self.flusher.manifest.valid_for(&*store),
                store.manifests@.len() + store.pending_compactor_checkpoints@.len()
                    + self.flusher.db.state.imm_memtable@.len() <= old(store).manifests@.len()
                    + old(store).pending_compactor_checkpoints@.len() + old(self).flusher.db.state.imm_memtable@.len(),
                old(store).manifests@.len() + old(store).pending_compactor_checkpoints@.len()
                    + old(self).flusher.db.state.imm_memtable@.len() < u64::MAX,
                self.is_stopped <==> (old(self).is_stopped || exists|j: int|
                    0 <= j < i && (#[trigger] inbox@[j].msg) is Shutdown),
                old(self).healthy(&*old(store)) ==> self.healthy(&*store)
                    && store.latest_epoch() <= old(self).flusher.manifest.local_epoch,
                old(self).flusher.db.first_error is Some ==> self.flusher.db.first_error == old(self).flusher.db.first_error,
                (forall|j: int|
                    0 <= j < i ==> !((#[trigger] inbox@[j].msg) is FlushImmutableMemtables))
                    ==> self.flusher == old(self).flusher && *store == *old(store),
                old(self).healthy(&*old(store)) && old(store).fail_sst_writes == 0 ==> store.fail_sst_writes == 0,
                old(self).healthy(&*old(store)) && old(store).fail_sst_writes == 0 ==> self.flusher.db.first_error == old(self).flusher.db.first_error,
                old(self).healthy(&*old(store)) && old(store).fail_sst_writes == 0 ==> (forall|j: int|
                    0 <= j < i ==> ((#[trigger] replies@[j]) is Some ==> replies@[j]->Some_0
                        is Ok)),
                old(self).healthy(&*old(store)) && old(store).fail_sst_writes == 0 && (exists|j: int|
                    0 <= j < i && (#[trigger] inbox@[j].msg) is FlushImmutableMemtables)
                    ==> flush_drained(&old(self).flusher, &self.flusher, &*old(store), &*store),
                old(self).healthy(&*old(store)) && old(store).fail_sst_writes == 0 && (exists|j: int|
                    0 <= j < i && (#[trigger] inbox@[j].msg) is FlushImmutableMemtables)
                    ==> ({
                    let k = old(self).flusher.db.state.imm_memtable@.len()
                        - self.flusher.db.state.imm_memtable@.len();
                    &&& (k >= 1 ==> store.manifests@.len() == old(store).manifests@.len() + old(store).pending_compactor_checkpoints@.len() + k
                        && store.pending_compactor_checkpoints@.len() == 0
                        && store.latest_view() == (ManifestView {
                        epoch: old(self).flusher.manifest.local_epoch,
                        core: self.flusher.db.state.core@,
                    }))
                    &&& (k == 0 ==> store.manifests == old(store).manifests
                        && store.pending_compactor_checkpoints == old(store).pending_compactor_checkpoints)
                }),
            decreases inbox@.len() - i,
        {
            let ghost pre_f = self.flusher;
            let ghost pre_s = *store;
            let m = inbox[i];
            let reply = self.handle_message(store, m);
            proof {
                if old(self).healthy(&*old(store)) && old(store).fail_sst_writes == 0
                    && m.msg is FlushImmutableMemtables {
                    if m.wants_reply && !m.reply_dropped {
                        assert(reply is Some && reply->Some_0 is Ok);
                    }
                    if exists|j: int|
                        0 <= j < i && (#[trigger] inbox@[j].msg) is FlushImmutableMemtables {
                        lemma_flush_drained_stutter(
                            &old(self).flusher,
                            &pre_f,
                            &self.flusher,
                            &*old(store),
                            &pre_s,
                            &*store,
                        );
                    } else {
                        assert(pre_f == old(self).flusher && pre_s == *old(store));
                        assert(flush_drained(
                            &old(self).flusher,
                            &self.flusher,
                            &*old(store),
                            &*store,
                        ));
                    }
                }
            }
            replies.push(reply);
            i = i + 1;
        }
        match self.flusher.write_manifest_safely(store) {
            Ok(u) => {
            },
            Err(e) => {
            },
        }
        replies
    }
}

} // verus!