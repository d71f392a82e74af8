use slatedb::db_state::{CoreDbState, DbInner, DbOptions, ImmutableMemtable, SsTableId};
use slatedb::error::SlateDBError;
use slatedb::manifest_store::{FenceableManifest, Manifest, ManifestStore};
use slatedb::mem_table_flush::{
    FlushMsg, MemtableFlushTask, MemtableFlushThreadMsg, MemtableFlusher,
};

fn imm(table_id: u64, key: u64) -> ImmutableMemtable {
    ImmutableMemtable { table_id, first_key: key, last_key: key, entry_count: 1 }
}

fn open_flusher(store: &mut ManifestStore, l0_max_ssts: usize) -> MemtableFlusher {
    let manifest = FenceableManifest::init(store).unwrap();
    let db = DbInner::new(
        CoreDbState::new(),
        DbOptions { l0_max_ssts, manifest_poll_interval_ms: 100 },
    );
    MemtableFlusher::new(db, manifest)
}

#[test]
fn empty_store_has_no_latest_manifest() {
    let store = ManifestStore::new();
    assert_eq!(
        store.latest().map(|p| p.0),
        Err(SlateDBError::LatestManifestMissing)
    );
}

#[test]
fn bootstrap_writes_version_one_epoch_one() {
    let mut store = ManifestStore::new();
    let manifest = FenceableManifest::init(&mut store).unwrap();
    assert_eq!(manifest.local_epoch, 1);
    assert_eq!(manifest.local_version, 1);
    assert!(!manifest.fenced);
    assert_eq!(store.manifests.len(), 1);
    let (version, latest) = store.latest().unwrap();
    assert_eq!(version, 1);
    assert_eq!(latest.epoch, 1);
    assert!(latest.core.l0.is_empty());
}

#[test]
fn versions_are_dense_and_epoch_is_constant_within_a_process() {
    let mut store = ManifestStore::new();
    let mut flusher = open_flusher(&mut store, 8);
    for i in 0..3u64 {
        flusher.db.rotate_memtable(imm(i + 1, 97 + i));
    }
    assert_eq!(flusher.flush_imm_memtables_to_l0(&mut store), Ok(()));

    // versions 1..=4 are present, each readable, and nothing beyond
    let count = store.manifests.len() as u64;
    assert_eq!(count, 4);
    for v in 1..=count {
        let m = store.read(v).unwrap();
        // a single process stamps a single epoch into every manifest
        assert_eq!(m.epoch, 1);
    }
    assert_eq!(
        store.read(count + 1).map(|m| m.epoch),
        Err(SlateDBError::ManifestMissing(count + 1))
    );
    assert_eq!(store.read(0).map(|m| m.epoch), Err(SlateDBError::ManifestMissing(0)));
}

#[test]
fn create_if_absent_refuses_an_existing_version() {
    let mut store = ManifestStore::new();
    let _writer = FenceableManifest::init(&mut store).unwrap();
    let stale = Manifest { epoch: 1, core: CoreDbState::new() };
    assert_eq!(store.write(1, stale), Err(SlateDBError::ManifestVersionExists));
    assert_eq!(store.manifests.len(), 1);
}

#[test]
fn epochs_climb_across_process_boundaries() {
    let mut store = ManifestStore::new();
    let first = FenceableManifest::init(&mut store).unwrap();
    let second = FenceableManifest::init(&mut store).unwrap();
    let third = FenceableManifest::init(&mut store).unwrap();
    assert_eq!(first.local_epoch, 1);
    assert_eq!(second.local_epoch, 2);
    assert_eq!(third.local_epoch, 3);
    // stored epochs never decrease along the version order
    let epochs: Vec<u64> = store.manifests.iter().map(|m| m.epoch).collect();
    assert_eq!(epochs, vec![1, 2, 3]);
}

#[test]
fn refresh_adopts_the_compactor_checkpoint() {
    let mut store = ManifestStore::new();
    let mut flusher = open_flusher(&mut store, 4);
    // a compactor write lands; the next publish loses the race, re-reads,
    // and carries the compactor's checkpoint forward
    store.inject_compactor_write(11);
    assert_eq!(flusher.write_manifest_safely(&mut store), Ok(()));
    assert_eq!(flusher.db.state.core.compactor_checkpoint, 11);
    let (_, latest) = store.latest().unwrap();
    assert_eq!(latest.core.compactor_checkpoint, 11);
}

#[test]
fn failed_upload_keeps_the_memtable_queued_for_retry() {
    let mut store = ManifestStore::new();
    let mut flusher = open_flusher(&mut store, 4);
    flusher.db.rotate_memtable(imm(1, 97));
    store.inject_sst_write_failures(1);

    // the upload fails, the error surfaces unchanged, and the memtable
    // remains at the back of the queue
    assert_eq!(
        flusher.flush_imm_memtables_to_l0(&mut store),
        Err(SlateDBError::ObjectStoreError)
    );
    assert_eq!(flusher.db.state.imm_memtable.len(), 1);
    assert!(flusher.db.state.core.l0.is_empty());
    assert!(flusher.db.events.is_empty());

    // the next invocation retries and succeeds
    assert_eq!(flusher.flush_imm_memtables_to_l0(&mut store), Ok(()));
    assert!(flusher.db.state.imm_memtable.is_empty());
    assert_eq!(flusher.db.state.core.l0.len(), 1);
}

#[test]
fn failed_flush_is_latched_and_reported_on_the_reply() {
    let mut store = ManifestStore::new();
    let flusher = open_flusher(&mut store, 4);
    let mut task = MemtableFlushTask::new(flusher);
    task.flusher.db.rotate_memtable(imm(1, 97));
    store.inject_sst_write_failures(1);

    let msg = FlushMsg {
        msg: MemtableFlushThreadMsg::FlushImmutableMemtables,
        wants_reply: true,
        reply_dropped: false,
    };
    let reply = task.handle_message(&mut store, msg);
    assert_eq!(reply, Some(Err(SlateDBError::ObjectStoreError)));
    assert_eq!(task.flusher.db.first_error, Some(SlateDBError::ObjectStoreError));

    // later errors do not replace the first latched one
    task.flusher.db.set_error_if_none(SlateDBError::ChecksumMismatch);
    assert_eq!(task.flusher.db.first_error, Some(SlateDBError::ObjectStoreError));
}

#[test]
fn dropped_reply_channel_swallows_the_reply_and_latches_the_error() {
    let mut store = ManifestStore::new();
    let flusher = open_flusher(&mut store, 4);
    let mut task = MemtableFlushTask::new(flusher);
    task.flusher.db.rotate_memtable(imm(1, 97));
    store.inject_sst_write_failures(1);

    let msg = FlushMsg {
        msg: MemtableFlushThreadMsg::FlushImmutableMemtables,
        wants_reply: true,
        reply_dropped: true,
    };
    let reply = task.handle_message(&mut store, msg);
    assert_eq!(reply, None);
    assert_eq!(task.flusher.db.first_error, Some(SlateDBError::ObjectStoreError));
}

#[test]
fn tick_counts_successful_flush_passes() {
    let mut store = ManifestStore::new();
    let flusher = open_flusher(&mut store, 4);
    let mut task = MemtableFlushTask::new(flusher);
    task.flusher.db.rotate_memtable(imm(1, 97));

    task.handle_tick(&mut store);
    assert_eq!(task.flusher.db.db_stats.immutable_memtable_flushes, 1);
    assert_eq!(task.flusher.db.first_error, None);
    assert_eq!(task.flusher.db.state.core.l0.len(), 1);

    // a stopped task refuses timer-driven work
    task.is_stopped = true;
    task.flusher.db.rotate_memtable(imm(2, 98));
    task.handle_tick(&mut store);
    assert_eq!(task.flusher.db.db_stats.immutable_memtable_flushes, 1);
    assert_eq!(task.flusher.db.state.imm_memtable.len(), 1);
}

#[test]
fn upload_never_touches_manifests() {
    let mut store = ManifestStore::new();
    let _writer = FenceableManifest::init(&mut store).unwrap();
    let before = store.manifests.len();
    let handle = store.write_sst(SsTableId::Wal(5), &imm(1, 97)).unwrap();
    assert_eq!(handle.id, SsTableId::Wal(5));
    assert_eq!(handle.entry_count, 1);
    assert_eq!(store.manifests.len(), before);
    assert_eq!(store.ssts, vec![SsTableId::Wal(5)]);
}
