use snapshot_contract::host::{Items, SnapshotMap};
use snapshot_contract::snapshot::{submitted_topic, SNAPSHOT_SUBMITTED};
use snapshot_contract::store::{
    find_snapshot, insert_snapshot, read_snapshot, record_submission, retrieve,
    snapshots_or_empty,
};
use snapshot_contract::{DataKey, Host, Snapshot};
use soroban_sdk::testutils::EnvTestConfig;
use soroban_sdk::{Bytes, Env, IntoVal, Val};

fn new_env() -> Env {
    Env::new_with_config(EnvTestConfig {
        capture_snapshot_at_drop: false,
    })
}

fn items_of(env: &Env, hash: &Bytes, epoch: u64, timestamp: u64) -> Items {
    (hash.clone(), epoch, timestamp).into_val(env)
}

#[test]
fn slot_and_topic_names() {
    assert_eq!(DataKey::Snapshots.name(), "Snapshots");
    assert_eq!(submitted_topic(), "SNAP_SUB");
    assert_eq!(SNAPSHOT_SUBMITTED, "SNAP_SUB");
}

#[test]
fn a_host_hands_out_its_handle() {
    let env = new_env();
    let host = Host::new(env.clone());
    let made = Bytes::from_array(host.env(), &[1, 2]);
    assert_eq!(made, Bytes::from_array(&env, &[1, 2]));
}

#[test]
fn record_and_snapshot_convert_both_ways() {
    let env = new_env();
    let hash = Bytes::from_array(&env, &[1, 2, 3]);
    let snapshot = Snapshot::from_record((hash.clone(), 4, 5));
    assert_eq!(snapshot, Snapshot { hash: hash.clone(), epoch: 4, timestamp: 5 });
    assert_eq!(snapshot.into_record(), (hash, 4, 5));
}

#[test]
fn three_items_of_the_right_types_read_as_a_snapshot() {
    let env = new_env();
    let hash = Bytes::from_array(&env, &[0xfe, 0xed]);
    assert_eq!(
        read_snapshot(&items_of(&env, &hash, 6, 60)),
        Some(Snapshot { hash: hash.clone(), epoch: 6, timestamp: 60 })
    );
    assert_eq!(
        read_snapshot(&items_of(&env, &hash, u64::MAX, u64::MAX)),
        Some(Snapshot { hash, epoch: u64::MAX, timestamp: u64::MAX })
    );
}

#[test]
fn a_list_of_another_length_reads_as_no_snapshot() {
    let env = new_env();
    let hash = Bytes::from_array(&env, &[0xfe, 0xed]);
    let none: Items = soroban_sdk::Vec::new(&env);
    let two: Items = (hash.clone(), 6u64).into_val(&env);
    let four: Items = (hash, 6u64, 60u64, 600u64).into_val(&env);
    assert_eq!(read_snapshot(&none), None);
    assert_eq!(read_snapshot(&two), None);
    assert_eq!(read_snapshot(&four), None);
}

#[test]
fn three_items_of_other_types_read_as_no_snapshot() {
    let env = new_env();
    let hash = Bytes::from_array(&env, &[0xfe, 0xed]);
    let no_hash: Items = (1u64, 2u64, 3u64).into_val(&env);
    let no_epoch: Items = (hash.clone(), hash.clone(), 3u64).into_val(&env);
    let no_timestamp: Items = (hash, 2u64, 3u32).into_val(&env);
    assert_eq!(read_snapshot(&no_hash), None);
    assert_eq!(read_snapshot(&no_epoch), None);
    assert_eq!(read_snapshot(&no_timestamp), None);
}

#[test]
fn an_unwritten_slot_is_an_empty_collection() {
    let env = new_env();
    let snapshots = snapshots_or_empty(&env, None);
    assert_eq!(snapshots.len(), 0);
    assert_eq!(find_snapshot(&snapshots, 0), None);
    assert_eq!(retrieve(&env, None, 999), None);
}

#[test]
fn a_written_slot_is_kept_as_it_is() {
    let env = new_env();
    let mut stored: SnapshotMap = soroban_sdk::Map::new(&env);
    stored.set(3, items_of(&env, &Bytes::from_array(&env, &[3]), 3, 30));
    let snapshots = snapshots_or_empty(&env, Some(stored.clone()));
    assert_eq!(snapshots, stored);
}

#[test]
fn insert_then_find() {
    let env = new_env();
    let mut snapshots = snapshots_or_empty(&env, None);
    let hash = Bytes::from_array(&env, &[0xca, 0xfe]);
    insert_snapshot(&mut snapshots, Snapshot { hash: hash.clone(), epoch: 9, timestamp: 90 });
    assert_eq!(snapshots.len(), 1);
    assert_eq!(snapshots.get(9), Some(items_of(&env, &hash, 9, 90)));
    assert_eq!(
        find_snapshot(&snapshots, 9),
        Some(Snapshot { hash, epoch: 9, timestamp: 90 })
    );
    assert_eq!(find_snapshot(&snapshots, 8), None);
}

#[test]
fn insert_replaces_the_record_of_its_epoch_only() {
    let env = new_env();
    let mut snapshots = snapshots_or_empty(&env, None);
    let a = Bytes::from_array(&env, &[0xa]);
    let b = Bytes::from_array(&env, &[0xb]);
    let c = Bytes::from_array(&env, &[0xc]);
    insert_snapshot(&mut snapshots, Snapshot { hash: a.clone(), epoch: 1, timestamp: 10 });
    insert_snapshot(&mut snapshots, Snapshot { hash: b, epoch: 2, timestamp: 20 });
    insert_snapshot(&mut snapshots, Snapshot { hash: c.clone(), epoch: 2, timestamp: 30 });
    assert_eq!(snapshots.len(), 2);
    assert_eq!(
        find_snapshot(&snapshots, 1),
        Some(Snapshot { hash: a, epoch: 1, timestamp: 10 })
    );
    assert_eq!(
        find_snapshot(&snapshots, 2),
        Some(Snapshot { hash: c, epoch: 2, timestamp: 30 })
    );
}

#[test]
fn find_reads_an_unreadable_entry_as_absent() {
    let env = new_env();
    let mut raw: soroban_sdk::Map<u64, u32> = soroban_sdk::Map::new(&env);
    raw.set(1, 7);
    let snapshots: SnapshotMap = soroban_sdk::FromVal::from_val(&env, &raw.to_val());
    assert_eq!(find_snapshot(&snapshots, 1), None);
    assert_eq!(find_snapshot(&snapshots, 2), None);
}

#[test]
fn find_reads_a_record_of_two_items_as_absent() {
    let env = new_env();
    let hash = Bytes::from_array(&env, &[7; 8]);
    let mut snapshots: SnapshotMap = soroban_sdk::Map::new(&env);
    snapshots.set(1, (hash.clone(), 1u64).into_val(&env));
    snapshots.set(2, items_of(&env, &hash, 2, 20));
    let empty: soroban_sdk::Vec<Val> = soroban_sdk::Vec::new(&env);
    snapshots.set(3, empty);
    assert_eq!(find_snapshot(&snapshots, 1), None);
    assert_eq!(
        find_snapshot(&snapshots, 2),
        Some(Snapshot { hash: hash.clone(), epoch: 2, timestamp: 20 })
    );
    assert_eq!(find_snapshot(&snapshots, 3), None);
    assert_eq!(retrieve(&env, Some(snapshots.clone()), 1), None);

    insert_snapshot(&mut snapshots, Snapshot { hash: hash.clone(), epoch: 1, timestamp: 10 });
    assert_eq!(
        find_snapshot(&snapshots, 1),
        Some(Snapshot { hash, epoch: 1, timestamp: 10 })
    );
}

#[test]
fn submission_on_an_unwritten_slot() {
    let env = new_env();
    let hash = Bytes::from_array(&env, &[0x11; 8]);
    let outcome = record_submission(&env, None, hash.clone(), 1, 1000);
    assert_eq!(outcome.timestamp, 1000);
    assert_eq!(outcome.event, (hash.clone(), 1, 1000));
    assert_eq!(outcome.snapshots.len(), 1);
    assert_eq!(outcome.snapshots.get(1), Some(items_of(&env, &hash, 1, 1000)));
    assert_eq!(
        retrieve(&env, Some(outcome.snapshots), 1),
        Some(Snapshot { hash, epoch: 1, timestamp: 1000 })
    );
}

#[test]
fn submission_on_a_written_slot() {
    let env = new_env();
    let first = Bytes::from_array(&env, &[0x11; 8]);
    let second = Bytes::from_array(&env, &[0x22; 8]);
    let third = Bytes::from_array(&env, &[0x33; 8]);
    let one = record_submission(&env, None, first.clone(), 1, 10);
    let two = record_submission(&env, Some(one.snapshots), second, 2, 20);
    let three = record_submission(&env, Some(two.snapshots), third.clone(), 2, 30);
    assert_eq!(three.timestamp, 30);
    assert_eq!(three.event, (third.clone(), 2, 30));
    assert_eq!(three.snapshots.len(), 2);
    assert_eq!(
        retrieve(&env, Some(three.snapshots.clone()), 1),
        Some(Snapshot { hash: first, epoch: 1, timestamp: 10 })
    );
    assert_eq!(
        retrieve(&env, Some(three.snapshots.clone()), 2),
        Some(Snapshot { hash: third, epoch: 2, timestamp: 30 })
    );
    assert_eq!(retrieve(&env, Some(three.snapshots), 3), None);
}
