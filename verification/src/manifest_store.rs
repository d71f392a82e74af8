//! Manifest objects, the manifest store, and the fenceable manifest.
//!
//! The store keeps numbered manifest objects whose versions form a dense
//! monotone sequence starting at 1: object `v` is created exactly once, by a
//! create-if-absent write, which is the only synchronization primitive the
//! protocol relies on. The fenceable manifest wraps the store with an epoch:
//! a process that observes a strictly newer epoch is fenced and refuses to
//! publish from then on.

use vstd::prelude::*;

use crate::db_state::{handle_covers_table, CoreDbState, CoreDbStateView, ImmutableMemtable,
    SsTableHandle, SsTableId};
use crate::error::SlateDBError;

verus! {

/// A persisted snapshot of the durable catalog together with the epoch of the
/// process that wrote it.
#[verifier::ext_equal]
#[derive(Debug)]
pub struct Manifest {
    pub epoch: u64,
    pub core: CoreDbState,
}

/// The mathematical content of a manifest.
#[verifier::ext_equal]
pub struct ManifestView {
    pub epoch: u64,
    pub core: CoreDbStateView,
}

impl View for Manifest {
    type V = ManifestView;

    open spec fn view(&self) -> ManifestView {
        ManifestView { epoch: self.epoch, core: self.core@ }
    }
}

impl Manifest {
    /// An exact copy, handed out so that callers never hold references into
    /// the store while they mutate it.
    pub fn clone_manifest(&self) -> (r: Manifest)
        ensures
            r@ == self@,
    {
        let r = Manifest { epoch: self.epoch, core: self.core.clone_core() };
        proof {
            assert(r@ =~= self@);
        }
        r
    }
}

/// The object store as the flush protocol sees it: the dense run of manifest
/// objects (index `i` holds version `i + 1`), the SST objects uploaded so
/// far, and two knobs that let a harness stand in for the rest of the world.
///
/// `pending_compactor_checkpoints` queues writes by the compactor peer task:
/// before each manifest write attempt one queued checkpoint is applied at the
/// next version, exactly as a compactor racing between this writer's refresh
/// and its write would. `fail_sst_writes` makes that many SST uploads fail.
#[verifier::ext_equal]
#[derive(Debug)]
pub struct ManifestStore {
    pub manifests: Vec<Manifest>,
    pub ssts: Vec<SsTableId>,
    pub pending_compactor_checkpoints: Vec<u64>,
    pub fail_sst_writes: u64,
}

impl ManifestStore {
    /// The stored manifests as mathematical values, oldest first; the object
    /// at index `i` has version `i + 1`, so versions are dense by
    /// construction and each is written exactly once.
    pub open spec fn manifest_seq(&self) -> Seq<ManifestView> {
        self.manifests@.map_values(|m: Manifest| m@)
    }

    /// The highest-numbered manifest.
    pub open spec fn latest_view(&self) -> ManifestView
        recommends
            self.manifests@.len() > 0,
    {
        self.manifest_seq().last()
    }

    /// The epoch of the highest-numbered manifest.
    pub open spec fn latest_epoch(&self) -> u64
        recommends
            self.manifests@.len() > 0,
    {
        self.latest_view().epoch
    }

    /// Epochs never decrease along the version order: every writer stamps an
    /// epoch at least as large as the one it last observed.
    pub open spec fn epochs_monotone(&self) -> bool {
        forall|i: int, j: int|
            0 <= i <= j < self.manifest_seq().len() ==> self.manifest_seq()[i].epoch
                <= self.manifest_seq()[j].epoch
    }

    /// Room for one more version number: the dense u64 version counter has
    /// not been exhausted even after every queued compactor write lands.
    pub open spec fn has_capacity(&self) -> bool {
        self.manifests@.len() + self.pending_compactor_checkpoints@.len() < u64::MAX
    }

    /// The manifest a queued compactor write would create: the latest catalog
    /// with the compactor's own checkpoint replaced, at the latest epoch.
    pub open spec fn compactor_manifest_view(&self) -> ManifestView
        recommends
            self.manifests@.len() > 0,
            self.pending_compactor_checkpoints@.len() > 0,
    {
        ManifestView {
            epoch: self.latest_epoch(),
            core: CoreDbStateView {
                l0: self.latest_view().core.l0,
                compactor_checkpoint: self.pending_compactor_checkpoints@[0],
            },
        }
    }

    /// The version number of the manifest object at position `i`: versions
    /// and positions determine each other, so no version is written twice
    /// and none is skipped.
    pub open spec fn version_at(&self, i: int) -> int {
        i + 1
    }

    /// An empty store: no manifest has ever been written.
    pub fn new() -> (r: ManifestStore)
        ensures
            r.manifests@.len() == 0,
            r.ssts@.len() == 0,
            r.pending_compactor_checkpoints@.len() == 0,
            r.fail_sst_writes == 0,
    {
        ManifestStore {
            manifests: Vec::new(),
            ssts: Vec::new(),
            pending_compactor_checkpoints: Vec::new(),
            fail_sst_writes: 0,
        }
    }

    /// Returns the highest-numbered manifest and its version, or
    /// `LatestManifestMissing` if none has ever been written.
    pub fn latest(&self) -> (r: Result<(u64, Manifest), SlateDBError>)
        ensures
            self.manifests@.len() == 0 ==> (r matches Err(e) && e
                == SlateDBError::LatestManifestMissing),
            self.manifests@.len() > 0 ==> (r matches Ok(p) && p.0 == self.manifests@.len() && p.1@
                == self.latest_view()),
    {
        if self.manifests.len() == 0 {
            Err(SlateDBError::LatestManifestMissing)
        } else {
            let idx = self.manifests.len() - 1;
            let m = self.manifests[idx].clone_manifest();
            Ok((self.manifests.len() as u64, m))
        }
    }

    /// Reads the manifest with the given version; fails `ManifestMissing` if
    /// no object with that version exists.
    pub fn read(&self, version: u64) -> (r: Result<Manifest, SlateDBError>)
        ensures
            1 <= version <= self.manifests@.len() ==> (r matches Ok(m) && m@
                == self.manifest_seq()[version - 1]),
            !(1 <= version <= self.manifests@.len()) ==> (r matches Err(e) && e
                == SlateDBError::ManifestMissing(version)),
    {
        if version >= 1 && version <= self.manifests.len() as u64 {
            let idx = (version - 1) as usize;
            Ok(self.manifests[idx].clone_manifest())
        } else {
            Err(SlateDBError::ManifestMissing(version))
        }
    }

    /// Creates the manifest object with the given version, with
    /// create-if-absent semantics: fails `ManifestVersionExists` if and only
    /// if an object with that version already exists, which is the case
    /// exactly when a queued compactor write lands first or the version is
    /// already taken. Versions stay dense: the protocol only ever writes at
    /// `latest + 1`.
    pub fn write(&mut self, version: u64, manifest: Manifest) -> (r: Result<(), SlateDBError>)
        requires
            1 <= version <= old(self).manifests@.len() + 1,
            old(self).has_capacity(),
        ensures
            final(self).ssts == old(self).ssts,
            final(self).fail_sst_writes == old(self).fail_sst_writes,
            ({
                let applied = old(self).pending_compactor_checkpoints@.len() > 0 && old(self).manifests@.len() > 0;
                &&& (applied ==> {
                    &&& final(self).pending_compactor_checkpoints@ == old(self).pending_compactor_checkpoints@.skip(1)
                    &&& final(self).manifest_seq() == old(self).manifest_seq() + seq![
                        old(self).compactor_manifest_view(),
                    ]
                    &&& r matches Err(e) && e == SlateDBError::ManifestVersionExists
                })
                &&& (!applied ==> {
                    &&& final(self).pending_compactor_checkpoints == old(self).pending_compactor_checkpoints
                    &&& (version == old(self).manifests@.len() + 1 ==> (r matches Ok(u) && u
                        == () && final(self).manifest_seq() == old(self).manifest_seq() + seq![
                        manifest@,
                    ]))
                    &&& (version <= old(self).manifests@.len() ==> (r matches Err(e) && e
                        == SlateDBError::ManifestVersionExists && final(self).manifests == old(self).manifests))
                })
            }),
            old(self).epochs_monotone() && (r is Ok ==> (old(self).manifests@.len() > 0
                ==> manifest@.epoch >= old(self).latest_epoch())) ==> final(self).epochs_monotone(),
    {
        if self.pending_compactor_checkpoints.len() > 0 && self.manifests.len() > 0 {
            let checkpoint = self.pending_compactor_checkpoints.remove(0);
            let last = self.manifests.len() - 1;
            let mut peer_core = self.manifests[last].core.clone_core();
            let peer_epoch = self.manifests[last].epoch;
            peer_core.compactor_checkpoint = checkpoint;
            let peer = Manifest { epoch: peer_epoch, core: peer_core };
            proof {
                assert(peer@ =~= old(self).compactor_manifest_view());
            }
            self.manifests.push(peer);
            proof {
                assert(self.manifest_seq() =~= old(self).manifest_seq() + seq![
                    old(self).compactor_manifest_view(),
                ]);
                assert(self.pending_compactor_checkpoints@ =~= old(self).pending_compactor_checkpoints@.skip(1));
            }
            return Err(SlateDBError::ManifestVersionExists);
        }
        if version <= self.manifests.len() as u64 {
            return Err(SlateDBError::ManifestVersionExists);
        }
        self.manifests.push(manifest);
        proof {
            assert(self.manifest_seq() =~= old(self).manifest_seq() + seq![manifest@]);
        }
        Ok(())
    }

    /// Queues a manifest write by the compactor peer task, carrying the given
    /// checkpoint; it lands immediately before the next write attempt, as a
    /// compactor racing this writer would.
    pub fn inject_compactor_write(&mut self, checkpoint: u64)
        ensures
            final(self).pending_compactor_checkpoints@ == old(self).pending_compactor_checkpoints@ + seq![checkpoint],
            final(self).manifests == old(self).manifests,
            final(self).ssts == old(self).ssts,
            final(self).fail_sst_writes == old(self).fail_sst_writes,
    {
        self.pending_compactor_checkpoints.push(checkpoint);
    }

    /// Makes the next `n` SST uploads fail with `ObjectStoreError`.
    pub fn inject_sst_write_failures(&mut self, n: u64)
        ensures
            final(self).fail_sst_writes == n,
            final(self).manifests == old(self).manifests,
            final(self).ssts == old(self).ssts,
            final(self).pending_compactor_checkpoints == old(self).pending_compactor_checkpoints,
    {
        self.fail_sst_writes = n;
    }

    /// The SST writer collaborator: serializes the sealed table and uploads
    /// it under the given identifier, returning the catalog handle. The
    /// upload never touches the manifest objects, so a crash after an upload
    /// but before the manifest publish leaves an orphan SST object that the
    /// next recovery, reading manifests alone, ignores.
    pub fn write_sst(&mut self, id: SsTableId, table: &ImmutableMemtable) -> (r: Result<
        SsTableHandle,
        SlateDBError,
    >)
        ensures
            final(self).manifests == old(self).manifests,
            final(self).pending_compactor_checkpoints == old(self).pending_compactor_checkpoints,
            old(self).fail_sst_writes > 0 ==> {
                &&& r matches Err(e) && e == SlateDBError::ObjectStoreError
                &&& final(self).ssts == old(self).ssts
                &&& final(self).fail_sst_writes == old(self).fail_sst_writes - 1
            },
            old(self).fail_sst_writes == 0 ==> {
                &&& r matches Ok(h) && h.id == id && handle_covers_table(h, *table)
                &&& final(self).ssts@ == old(self).ssts@ + seq![id]
                &&& final(self).fail_sst_writes == 0
            },
    {
        if self.fail_sst_writes > 0 {
            self.fail_sst_writes = self.fail_sst_writes - 1;
            return Err(SlateDBError::ObjectStoreError);
        }
        self.ssts.push(id);
        Ok(
            SsTableHandle {
                id,
                first_key: table.first_key,
                last_key: table.last_key,
                entry_count: table.entry_count,
            },
        )
    }
}

/// A stateful wrapper around the manifest store that owns this process's
/// epoch: the local epoch equals the epoch of the last manifest this process
/// wrote, and once a load observes a strictly greater epoch the process is
/// fenced and refuses every further write.
#[verifier::ext_equal]
#[derive(Debug)]
pub struct FenceableManifest {
    pub local_epoch: u64,
    pub local_version: u64,
    pub fenced: bool,
    pub cached: CoreDbState,
}

impl FenceableManifest {
    /// The version this wrapper believes is latest never runs ahead of the
    /// store it was read from.
    pub open spec fn valid_for(&self, store: &ManifestStore) -> bool {
        self.local_version <= store.manifests@.len()
    }

    /// Opens the database as a new writer: reads the latest manifest, bumps
    /// its epoch by one in memory, and immediately publishes that epoch at
    /// the next version with the create-if-absent write. A lost race on the
    /// version number is retried from a fresh read; a newer epoch appearing
    /// on such a reload means another writer got there first and construction
    /// fails `Fenced`. An empty store is bootstrapped at version 1, epoch 1,
    /// with an empty catalog.
    pub fn init(store: &mut ManifestStore) -> (r: Result<FenceableManifest, SlateDBError>)
        requires
            old(store).has_capacity(),
            old(store).manifests@.len() > 0 ==> old(store).latest_epoch() < u64::MAX,
        ensures
            final(store).ssts == old(store).ssts,
            final(store).fail_sst_writes == old(store).fail_sst_writes,
            old(store).manifest_seq().is_prefix_of(final(store).manifest_seq()),
            old(store).epochs_monotone() ==> final(store).epochs_monotone(),
            final(store).manifests@.len() + final(store).pending_compactor_checkpoints@.len()
                == old(store).manifests@.len() + old(store).pending_compactor_checkpoints@.len() + 1,
            r matches Ok(fm) && {
                &&& !fm.fenced
                &&& fm.local_epoch == (if old(store).manifests@.len() == 0 {
                    1u64
                } else {
                    (old(store).latest_epoch() + 1) as u64
                })
                &&& fm.local_version == final(store).manifests@.len()
                &&& final(store).manifests@.len() > 0
                &&& final(store).latest_view() == (ManifestView {
                    epoch: fm.local_epoch,
                    core: fm.cached@,
                })
                &&& fm.valid_for(&*final(store))
            },
    {
        let first = store.latest();
        let next_epoch: u64 = match &first {
            Ok(p) => p.1.epoch + 1,
            Err(_) => 1,
        };
        loop
            invariant
                store.ssts == old(store).ssts,
                store.fail_sst_writes == old(store).fail_sst_writes,
                old(store).manifest_seq().is_prefix_of(store.manifest_seq()),
                store.manifests@.len() + store.pending_compactor_checkpoints@.len() == old(store).manifests@.len() + old(store).pending_compactor_checkpoints@.len(),
                old(store).epochs_monotone() ==> store.epochs_monotone(),
                old(store).manifests@.len() == 0 ==> store.manifests@.len() == 0,
                store.manifests@.len() > 0 ==> old(store).manifests@.len() > 0
                    && store.latest_epoch() == old(store).latest_epoch(),
                next_epoch == (if old(store).manifests@.len() == 0 {
                    1u64
                } else {
                    (old(store).latest_epoch() + 1) as u64
                }),
                old(store).manifests@.len() > 0 ==> old(store).latest_epoch() < u64::MAX,
                store.manifests@.len() + store.pending_compactor_checkpoints@.len() < u64::MAX,
            decreases store.pending_compactor_checkpoints@.len(),
        {
            let (latest_version, latest_epoch, latest_core): (u64, u64, CoreDbState) =
                match store.latest() {
                Ok(p) => {
                    let (v, m) = p;
                    (v, m.epoch, m.core)
                },
                Err(e) => match e {
                    SlateDBError::LatestManifestMissing => (0, 0, CoreDbState::new()),
                    _ => {
                        return Err(e);
                    },
                },
            };
            if latest_epoch >= next_epoch {
                // Another writer bumped the epoch while this one was racing
                // on the version number: give up rather than steal it back.
                return Err(SlateDBError::Fenced);
            }
            let manifest = Manifest { epoch: next_epoch, core: latest_core.clone_core() };
            match store.write(latest_version + 1, manifest) {
                Ok(u) => {
                    return Ok(
                        FenceableManifest {
                            local_epoch: next_epoch,
                            local_version: latest_version + 1,
                            fenced: false,
                            cached: latest_core,
                        },
                    );
                },
                Err(e) => match e {
                    SlateDBError::ManifestVersionExists => {
                    },
                    _ => {
                        return Err(e);
                    },
                },
            }
        }
    }

    /// Reads the latest manifest. If its epoch is strictly newer than this
    /// process's, the process has been fenced: the flag is set and `Fenced`
    /// is returned. Otherwise the catalog is cached and returned, and the
    /// local version advances to the version just read.
    pub fn refresh(&mut self, store: &ManifestStore) -> (r: Result<CoreDbState, SlateDBError>)
        ensures
            store.manifests@.len() == 0 ==> (r matches Err(e) && e
                == SlateDBError::LatestManifestMissing && *final(self) == *old(self)),
            store.manifests@.len() > 0 && store.latest_epoch() > old(self).local_epoch ==> (
            r matches Err(e) && e == SlateDBError::Fenced && final(self).fenced && final(self).local_epoch == old(self).local_epoch && final(self).local_version == old(self).local_version && final(self).cached == old(self).cached),
            store.manifests@.len() > 0 && store.latest_epoch() <= old(self).local_epoch ==> (
            r matches Ok(c) && c@ == store.latest_view().core && final(self).cached@
                == store.latest_view().core && final(self).local_version == store.manifests@.len()
                && final(self).local_epoch == old(self).local_epoch && final(self).fenced == old(self).fenced && final(self).valid_for(store)),
    {
        let (version, manifest) = match store.latest() {
            Ok(p) => p,
            Err(e) => {
                return Err(e);
            },
        };
        if manifest.epoch > self.local_epoch {
            self.fenced = true;
            return Err(SlateDBError::Fenced);
        }
        self.local_version = version;
        self.cached = manifest.core;
        Ok(self.cached.clone_core())
    }

    /// Publishes the given catalog at the next version under this process's
    /// epoch. Refuses with `Fenced` once fenced; surfaces
    /// `ManifestVersionExists` unchanged for the caller's outer retry loop;
    /// on success advances the local version.
    pub fn update_db_state(&mut self, store: &mut ManifestStore, core: CoreDbState) -> (r: Result<
        (),
        SlateDBError,
    >)
        requires
            old(self).fenced || (old(self).valid_for(&*old(store)) && old(store).has_capacity()),
        ensures
            final(self).local_epoch == old(self).local_epoch,
            final(self).fenced == old(self).fenced,
            final(store).ssts == old(store).ssts,
            final(store).fail_sst_writes == old(store).fail_sst_writes,
            old(self).fenced ==> (r matches Err(e) && e == SlateDBError::Fenced && *final(store)
                == *old(store) && *final(self) == *old(self)),
            !old(self).fenced ==> ({
                let applied = old(store).pending_compactor_checkpoints@.len() > 0 && old(store).manifests@.len() > 0;
                &&& (applied ==> (r matches Err(e) && e == SlateDBError::ManifestVersionExists
                    && final(store).manifest_seq() == old(store).manifest_seq() + seq![
                    old(store).compactor_manifest_view(),
                ] && final(store).pending_compactor_checkpoints@ == old(store).pending_compactor_checkpoints@.skip(1) && final(self).local_version == old(self).local_version && final(self).cached == old(self).cached))
                &&& (!applied ==> {
                    &&& (old(self).local_version == old(store).manifests@.len() ==> (
                    r matches Ok(u) && u == () && final(store).manifest_seq() == old(store).manifest_seq() + seq![
                        ManifestView { epoch: old(self).local_epoch, core: core@ },
                    ] && final(self).local_version == old(self).local_version + 1 && final(store).pending_compactor_checkpoints == old(store).pending_compactor_checkpoints
                        && final(self).cached == old(self).cached && final(self).valid_for(
                        &*final(store),
                    )))
                    &&& (old(self).local_version < old(store).manifests@.len() ==> (
                    r matches Err(e) && e == SlateDBError::ManifestVersionExists && *final(store)
                        == *old(store) && *final(self) == *old(self)))
                })
            }),
            old(store).epochs_monotone() && (r is Ok ==> (old(store).manifests@.len() > 0 ==> old(self).local_epoch >= old(store).latest_epoch())) ==> final(store).epochs_monotone(),
    {
        if self.fenced {
            return Err(SlateDBError::Fenced);
        }
        let manifest = Manifest { epoch: self.local_epoch, core };
        match store.write(self.local_version + 1, manifest) {
            Ok(u) => {
                self.local_version = self.local_version + 1;
                proof {
                    assert(store.manifest_seq() =~= old(store).manifest_seq() + seq![
                        ManifestView { epoch: old(self).local_epoch, core: core@ },
                    ]);
                }
                Ok(())
            },
            Err(e) => {
                proof {
                    let applied = old(store).pending_compactor_checkpoints@.len() > 0 && old(
                        store,
                    ).manifests@.len() > 0;
                    if !applied && old(self).local_version < old(store).manifests@.len() {
                        assert(*store =~= *old(store));
                    }
                }
                Err(e)
            },
        }
    }
}

/// A writer that bumps the latest epoch by one holds an epoch strictly above
/// every epoch ever written to the store: fencing detects every displaced
/// writer, however old its manifest.
pub proof fn lemma_bumped_epoch_dominates(s: &ManifestStore)
    requires
        s.epochs_monotone(),
        s.manifests@.len() > 0,
        s.latest_epoch() < u64::MAX,
    ensures
        forall|i: int|
            0 <= i < s.manifest_seq().len() ==> s.manifest_seq()[i].epoch < s.latest_epoch() + 1,
{
    assert forall|i: int| 0 <= i < s.manifest_seq().len() implies s.manifest_seq()[i].epoch
        < s.latest_epoch() + 1 by {
        assert(s.manifest_seq()[i].epoch <= s.manifest_seq()[s.manifest_seq().len() - 1].epoch);
    }
}

/// Manifest version numbers form a dense monotone sequence starting at 1
/// with no duplicates: the first object has version 1, each next object's
/// version is exactly one more, and distinct objects never share a version.
pub proof fn lemma_manifest_versions_dense(s: &ManifestStore)
    ensures
        forall|i: int| 0 <= i < s.manifest_seq().len() ==> #[trigger] s.version_at(i) == i + 1,
        s.manifest_seq().len() > 0 ==> s.version_at(0) == 1,
        forall|i: int, j: int|
            #![trigger s.version_at(i), s.version_at(j)]
            0 <= i < s.manifest_seq().len() && 0 <= j < s.manifest_seq().len() && s.version_at(i)
                == s.version_at(j) ==> i == j,
{
}

/// A crash between an SST upload and the manifest publish is invisible to
/// recovery: `write_sst` leaves the manifest objects untouched, so a store
/// that gained only SST objects presents the same manifests — the same
/// latest catalog, referencing the same SSTs — to the next process that
/// opens it, and the orphaned upload is simply never referenced.
pub proof fn lemma_recovery_ignores_orphan_ssts(pre: &ManifestStore, post: &ManifestStore)
    requires
        pre.manifests@.len() > 0,
        post.manifests == pre.manifests,
    ensures
        post.manifest_seq() == pre.manifest_seq(),
        post.latest_view() == pre.latest_view(),
{
}

} // verus!