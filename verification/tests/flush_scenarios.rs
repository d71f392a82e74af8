use slatedb::db_state::{
    CoreDbState, DbInner, DbOptions, FlushEvent, FlushNotification, ImmutableMemtable, SsTableId,
};
use slatedb::error::SlateDBError;
use slatedb::manifest_store::{FenceableManifest, ManifestStore};
use slatedb::mem_table_flush::{
    FlushMsg, MemtableFlushTask, MemtableFlushThreadMsg, MemtableFlusher,
};

fn imm(table_id: u64, key: u64) -> ImmutableMemtable {
    ImmutableMemtable { table_id, first_key: key, last_key: key, entry_count: 1 }
}

fn open_flusher(store: &mut ManifestStore, l0_max_ssts: usize) -> MemtableFlusher {
    let manifest = FenceableManifest::init(store).unwrap();
    let db = DbInner::new(
        CoreDbState::new(),
        DbOptions { l0_max_ssts, manifest_poll_interval_ms: 100 },
    );
    MemtableFlusher::new(db, manifest)
}

fn l0_ev(table_id: u64) -> FlushEvent {
    FlushEvent { table_id, notification: FlushNotification::FlushedToL0 }
}

fn durable_ev(table_id: u64) -> FlushEvent {
    FlushEvent { table_id, notification: FlushNotification::Durable }
}

#[test]
fn three_rotations_flush_in_fifo_order() {
    let mut store = ManifestStore::new();
    let mut flusher = open_flusher(&mut store, 4);
    flusher.db.rotate_memtable(imm(1, 97));
    flusher.db.rotate_memtable(imm(2, 98));
    flusher.db.rotate_memtable(imm(3, 99));
    assert_eq!(flusher.flush_imm_memtables_to_l0(&mut store), Ok(()));

    // l0 holds sst(c), sst(b), sst(a), newest first
    assert_eq!(flusher.db.state.core.l0.len(), 3);
    assert_eq!(flusher.db.state.core.l0[0].first_key, 99);
    assert_eq!(flusher.db.state.core.l0[1].first_key, 98);
    assert_eq!(flusher.db.state.core.l0[2].first_key, 97);
    assert!(flusher.db.state.imm_memtable.is_empty());

    // the flush path mints only Compacted identifiers
    assert!(matches!(flusher.db.state.core.l0[0].id, SsTableId::Compacted(_)));
    assert!(matches!(flusher.db.state.core.l0[2].id, SsTableId::Compacted(_)));

    // the manifest version advanced by exactly 3 beyond the startup write
    assert_eq!(store.manifests.len(), 4);

    // both one-shots fired per memtable, oldest first, flushed before durable
    let expected = vec![
        l0_ev(1),
        durable_ev(1),
        l0_ev(2),
        durable_ev(2),
        l0_ev(3),
        durable_ev(3),
    ];
    assert_eq!(flusher.db.events, expected);
}

#[test]
fn back_pressure_leaves_one_queued() {
    let mut store = ManifestStore::new();
    let mut flusher = open_flusher(&mut store, 2);
    flusher.db.rotate_memtable(imm(1, 97));
    flusher.db.rotate_memtable(imm(2, 98));
    flusher.db.rotate_memtable(imm(3, 99));
    assert_eq!(flusher.flush_imm_memtables_to_l0(&mut store), Ok(()));

    // two drain, the newest remains queued, and the cap holds
    assert_eq!(flusher.db.state.core.l0.len(), 2);
    assert_eq!(flusher.db.state.imm_memtable.len(), 1);
    assert_eq!(flusher.db.state.imm_memtable[0].table_id, 3);
    assert_eq!(flusher.db.state.core.l0[0].first_key, 98);
    assert_eq!(flusher.db.state.core.l0[1].first_key, 97);
}

#[test]
fn full_l0_makes_no_progress_and_returns_ok() {
    let mut store = ManifestStore::new();
    let mut flusher = open_flusher(&mut store, 1);
    flusher.db.rotate_memtable(imm(1, 97));
    assert_eq!(flusher.flush_imm_memtables_to_l0(&mut store), Ok(()));
    assert_eq!(flusher.db.state.core.l0.len(), 1);

    let manifests_before = store.manifests.len();
    flusher.db.rotate_memtable(imm(2, 98));
    flusher.db.rotate_memtable(imm(3, 99));
    assert_eq!(flusher.flush_imm_memtables_to_l0(&mut store), Ok(()));

    // no progress: the queue is not drained and nothing new is written
    assert_eq!(flusher.db.state.core.l0.len(), 1);
    assert_eq!(flusher.db.state.imm_memtable.len(), 2);
    assert_eq!(store.manifests.len(), manifests_before);
}

#[test]
fn second_writer_bumps_epoch_and_fences_the_first() {
    let mut store = ManifestStore::new();
    let mut flusher_a = open_flusher(&mut store, 4);
    assert_eq!(flusher_a.manifest.local_epoch, 1);

    // a second process opens the database back-to-back: its startup write
    // succeeds and stamps epoch 2
    let manifest_b = FenceableManifest::init(&mut store).unwrap();
    assert_eq!(manifest_b.local_epoch, 2);

    // the first process's next publish fails with Fenced
    let r = flusher_a.write_manifest_safely(&mut store);
    assert_eq!(r, Err(SlateDBError::Fenced));
    assert!(flusher_a.manifest.fenced);

    // and once fenced, it stays fenced
    assert_eq!(flusher_a.write_manifest(&mut store), Err(SlateDBError::Fenced));
}

#[test]
fn fenced_tick_latches_the_fatal_error() {
    let mut store = ManifestStore::new();
    let flusher_a = open_flusher(&mut store, 4);
    let _manifest_b = FenceableManifest::init(&mut store).unwrap();

    let mut task = MemtableFlushTask::new(flusher_a);
    task.handle_tick(&mut store);
    assert_eq!(task.flusher.db.first_error, Some(SlateDBError::Fenced));
    assert!(task.flusher.manifest.fenced);
}

#[test]
fn conflicting_version_is_retried_and_both_writers_land() {
    let mut store = ManifestStore::new();
    let mut flusher = open_flusher(&mut store, 4);
    flusher.db.rotate_memtable(imm(1, 97));

    // a compactor writes the manifest between this writer's refresh and its
    // write: the first attempt fails ManifestVersionExists and is retried
    store.inject_compactor_write(7);
    assert_eq!(flusher.flush_imm_memtables_to_l0(&mut store), Ok(()));

    // the L0 entry is latched exactly once, with no duplicate handles
    assert_eq!(flusher.db.state.core.l0.len(), 1);
    assert_eq!(flusher.db.state.core.l0[0].first_key, 97);

    // startup write, the compactor's write, and exactly one new version from
    // the flusher
    assert_eq!(store.manifests.len(), 3);

    // both writers' changes end up in the final manifest
    let (version, latest) = store.latest().unwrap();
    assert_eq!(version, 3);
    assert_eq!(latest.core.l0.len(), 1);
    assert_eq!(latest.core.l0[0].first_key, 97);
    assert_eq!(latest.core.compactor_checkpoint, 7);
    assert_eq!(flusher.db.state.core.compactor_checkpoint, 7);
}

#[test]
fn shutdown_drains_queued_commands_and_publishes() {
    let mut store = ManifestStore::new();
    let mut flusher = open_flusher(&mut store, 4);
    flusher.db.rotate_memtable(imm(1, 97));
    flusher.db.rotate_memtable(imm(2, 98));
    let mut task = MemtableFlushTask::new(flusher);

    let inbox = vec![
        FlushMsg { msg: MemtableFlushThreadMsg::Shutdown, wants_reply: false, reply_dropped: false },
        FlushMsg {
            msg: MemtableFlushThreadMsg::FlushImmutableMemtables,
            wants_reply: true,
            reply_dropped: false,
        },
        FlushMsg {
            msg: MemtableFlushThreadMsg::FlushImmutableMemtables,
            wants_reply: true,
            reply_dropped: false,
        },
    ];
    let replies = task.run_until_drained(&mut store, &inbox);

    // both queued flush commands are processed and answered; the task exits
    assert_eq!(replies.len(), 3);
    assert_eq!(replies[0], None);
    assert_eq!(replies[1], Some(Ok(())));
    assert_eq!(replies[2], Some(Ok(())));
    assert!(task.is_stopped);

    // the post-drain manifest reflects every successful flush
    let (_, latest) = store.latest().unwrap();
    assert_eq!(latest.core.l0.len(), 2);
    assert_eq!(task.flusher.db.state.core.l0.len(), 2);
    assert!(task.flusher.db.state.imm_memtable.is_empty());
}

#[test]
fn crash_between_upload_and_publish_leaves_unreferenced_orphan() {
    let mut store = ManifestStore::new();
    let mut flusher = open_flusher(&mut store, 4);
    flusher.db.rotate_memtable(imm(1, 97));
    assert_eq!(flusher.flush_imm_memtables_to_l0(&mut store), Ok(()));
    let manifests_before = store.manifests.len();

    // the process uploads an SST and is killed before the manifest publish
    let orphan = imm(9, 120);
    let handle = store.write_sst(SsTableId::Compacted(42), &orphan).unwrap();
    assert_eq!(handle.first_key, 120);

    // the orphan object exists in the store
    assert!(store.ssts.contains(&SsTableId::Compacted(42)));

    // but recovery sees the previous manifest: nothing references it
    assert_eq!(store.manifests.len(), manifests_before);
    let recovered = FenceableManifest::init(&mut store).unwrap();
    assert_eq!(recovered.cached.l0.len(), 1);
    assert_eq!(recovered.cached.l0[0].first_key, 97);
    assert!(!recovered.cached.l0.iter().any(|h| h.id == SsTableId::Compacted(42)));
}
