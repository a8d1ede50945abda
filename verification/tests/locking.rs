use lock_tracker::DeleteChunk;
use lock_tracker::Kind;
use lock_tracker::LockState;
use lock_tracker::ReadChunk;
use lock_tracker::Topic;
use lock_tracker::Transaction;
use lock_tracker::WriteChunk;

fn shared_on_both() -> Transaction {
    Transaction::new(
        LockState::new()
            .with_kind(Topic::Chunks, Kind::Shared)
            .with_kind(Topic::Index, Kind::Shared),
    )
}

fn rw_chunk<T: ReadChunk + WriteChunk>(txn: &T) {
    txn.read();
    txn.write();
}

fn delete_chunk<T: DeleteChunk>(txn: &T) {
    txn.delete();
}

fn delete_index(txn: &Transaction) {
    assert_eq!(txn.kind_of(Topic::Index), Kind::Exclusive);
}

#[test]
fn full_example_ok() {
    let txn = shared_on_both();

    rw_chunk(&txn);

    if let Ok(txn) = txn.lock(Topic::Chunks, Kind::Exclusive) {
        delete_chunk(&txn);
    } else {
        panic!("Failed to aquire lock on index");
    }
}

#[test]
fn with_lock() {
    let mut txn = shared_on_both();

    let res = txn.with_lock(Topic::Chunks, Kind::Exclusive, |mut txn: Transaction| {
        let res = txn.with_lock(Topic::Index, Kind::Exclusive, |txn: Transaction| {
            delete_chunk(&txn);
            delete_index(&txn);
        });

        assert!(res.is_ok());

        delete_chunk(&txn);
    });

    assert!(res.is_ok());
}

#[test]
fn kind_checking() {
    let txn = shared_on_both();

    assert!(txn.lock(Topic::Index, Kind::Shared).is_err());

    let txn = shared_on_both();

    assert!(txn.lock(Topic::Index, Kind::Exclusive).is_ok());
}

#[test]
fn capability_probes_track_chunk_kind() {
    let unlocked = Transaction::new(LockState::new());
    assert!(!unlocked.can_read());
    assert!(!unlocked.can_write());
    assert!(!unlocked.can_delete());

    let shared = Transaction::new(LockState::new().with_kind(Topic::Chunks, Kind::Shared));
    assert!(shared.can_read());
    assert!(shared.can_write());
    assert!(!shared.can_delete());

    let exclusive = Transaction::new(LockState::new().with_kind(Topic::Chunks, Kind::Exclusive));
    assert!(exclusive.can_read());
    assert!(exclusive.can_write());
    assert!(exclusive.can_delete());
}

#[test]
fn record_probes_match_transaction_probes() {
    let record = LockState::new().with_kind(Topic::Chunks, Kind::Shared);
    assert!(record.can_read());
    assert!(record.can_write());
    assert!(!record.can_delete());

    let empty = LockState::new();
    assert!(!empty.can_read());
    assert!(!empty.can_write());
    assert!(!empty.can_delete());
}

#[test]
fn overwrite_succeeds_from_every_prior_kind() {
    for prior in [Kind::Unlocked, Kind::Shared, Kind::Exclusive] {
        for requested in [Kind::Unlocked, Kind::Shared, Kind::Exclusive] {
            let txn = Transaction::new(LockState::new().with_kind(Topic::Chunks, prior));
            match txn.lock(Topic::Chunks, requested) {
                Ok(next) => {
                    assert_eq!(next.kind_of(Topic::Chunks), requested);
                    assert_eq!(next.kind_of(Topic::Index), Kind::Unlocked);
                }
                Err(_) => panic!("overwrite acquisition must always succeed"),
            }
        }
    }
}

#[test]
fn redundant_acquisition_fails_even_when_unlocked() {
    let txn = Transaction::new(LockState::new());
    let res = txn.lock(Topic::Index, Kind::Unlocked);
    assert!(res.is_err());
}

#[test]
fn conflict_reports_topic_and_requested_kind() {
    let txn = Transaction::new(LockState::new().with_kind(Topic::Index, Kind::Shared));
    match txn.lock(Topic::Index, Kind::Shared) {
        Ok(_) => panic!("redundant acquisition must fail"),
        Err((_, err)) => {
            assert_eq!(err.topic, Topic::Index);
            assert_eq!(err.requested, Kind::Shared);
            assert_eq!(err.message(), "already holding requested kind for index");
        }
    }
}

#[test]
fn index_downgrade_succeeds() {
    let txn = Transaction::new(LockState::new().with_kind(Topic::Index, Kind::Exclusive));
    match txn.lock(Topic::Index, Kind::Shared) {
        Ok(next) => assert_eq!(next.kind_of(Topic::Index), Kind::Shared),
        Err(_) => panic!("downgrade to a different kind must succeed"),
    }
}

#[test]
fn idempotent_overwrite_matches_single_acquisition() {
    let once = shared_on_both()
        .lock(Topic::Chunks, Kind::Exclusive)
        .unwrap_or_else(|_| panic!("overwrite acquisition must always succeed"));
    let twice = shared_on_both()
        .lock(Topic::Chunks, Kind::Exclusive)
        .unwrap_or_else(|_| panic!("overwrite acquisition must always succeed"))
        .lock(Topic::Chunks, Kind::Exclusive)
        .unwrap_or_else(|_| panic!("overwrite acquisition must always succeed"));
    assert_eq!(once.kind_of(Topic::Chunks), twice.kind_of(Topic::Chunks));
    assert_eq!(once.kind_of(Topic::Index), twice.kind_of(Topic::Index));
}

#[test]
fn scenario_exclusive_upgrade_enables_delete() {
    let txn = shared_on_both();
    assert!(!txn.can_delete());
    let txn = txn
        .lock(Topic::Chunks, Kind::Exclusive)
        .unwrap_or_else(|_| panic!("overwrite acquisition must always succeed"));
    assert!(txn.can_delete());
}

#[test]
fn scenario_redundant_shared_leaves_state_unchanged() {
    let txn = Transaction::new(LockState::new().with_kind(Topic::Index, Kind::Shared));
    match txn.lock(Topic::Index, Kind::Shared) {
        Ok(_) => panic!("redundant acquisition must fail"),
        Err((returned, _)) => {
            assert_eq!(returned.kind_of(Topic::Index), Kind::Shared);
            assert_eq!(returned.kind_of(Topic::Chunks), Kind::Unlocked);
        }
    }
}

#[test]
fn scenario_different_kind_on_conflict_topic_succeeds() {
    let txn = Transaction::new(LockState::new().with_kind(Topic::Index, Kind::Shared));
    match txn.lock(Topic::Index, Kind::Exclusive) {
        Ok(next) => assert_eq!(next.kind_of(Topic::Index), Kind::Exclusive),
        Err(_) => panic!("acquiring a different kind must succeed"),
    }
}

#[test]
fn scenario_nested_elevation_restores_outer_state() {
    let mut txn = shared_on_both();
    let chunks_before = txn.kind_of(Topic::Chunks);
    let index_before = txn.kind_of(Topic::Index);

    let res = txn.with_lock(Topic::Chunks, Kind::Exclusive, |mut inner: Transaction| {
        let res = inner.with_lock(Topic::Index, Kind::Exclusive, |innermost: Transaction| {
            assert!(innermost.can_delete());
            innermost.delete();
            assert_eq!(innermost.kind_of(Topic::Index), Kind::Exclusive);
        });
        assert!(res.is_ok());
    });
    assert!(res.is_ok());

    assert_eq!(txn.kind_of(Topic::Chunks), chunks_before);
    assert_eq!(txn.kind_of(Topic::Index), index_before);
}

#[test]
fn with_lock_conflict_reports_error_and_skips_body() {
    let mut txn = Transaction::new(LockState::new().with_kind(Topic::Index, Kind::Shared));
    let res = txn.with_lock(Topic::Index, Kind::Shared, |_: Transaction| {
        panic!("body must not run when the elevation conflicts");
    });
    match res {
        Ok(()) => panic!("redundant elevation must fail"),
        Err((returned, err)) => {
            assert_eq!(returned.kind_of(Topic::Index), Kind::Shared);
            assert_eq!(err.topic, Topic::Index);
        }
    }
    assert_eq!(txn.kind_of(Topic::Index), Kind::Shared);
    assert_eq!(txn.kind_of(Topic::Chunks), Kind::Unlocked);
}

#[test]
fn default_transaction_is_fully_unlocked() {
    let txn = Transaction::default();
    assert_eq!(txn.kind_of(Topic::Chunks), Kind::Unlocked);
    assert_eq!(txn.kind_of(Topic::Index), Kind::Unlocked);
    assert!(!txn.can_read());

    let record = LockState::default();
    assert_eq!(record.kind_of(Topic::Chunks), Kind::Unlocked);
    assert_eq!(record.kind_of(Topic::Index), Kind::Unlocked);
}
