//! The collection of snapshots and the two things done to it: a submission
//! puts a record under its epoch, a retrieval reads the record of an epoch.
//!
//! The functions here take what the host answered (the stored collection, the
//! ledger time) as arguments, so their contracts hold whatever it answered.
use vstd::prelude::*;
use soroban_sdk::{Bytes, Env};
use crate::host::{
    bytes_of, entries, items_len, items_to_record, map_new, map_set, map_try_get, record_in,
    record_view, Entries, Items, Record, SnapshotMap, SnapshotView,
};
use crate::snapshot::{viewed, Snapshot};

verus! {

/// The collection after a submission: the record `(hash, epoch, timestamp)`
/// stands under `epoch`, in place of whatever stood there; every other epoch
/// keeps its record.
pub open spec fn submitted(before: Entries, hash: Seq<u8>, epoch: u64, timestamp: u64) -> Entries {
    before.insert(epoch, (hash, epoch, timestamp))
}

/// The record of an epoch, if the collection holds one.
pub open spec fn found(collection: Entries, epoch: u64) -> Option<SnapshotView> {
    if collection.contains_key(epoch) {
        Some(collection[epoch])
    } else {
        None
    }
}

/// What the persistent slot says: a slot that was never written stands for
/// the collection without entries.
pub open spec fn stored_entries(stored: Option<SnapshotMap>) -> Entries {
    match stored {
        Some(snapshots) => entries(snapshots),
        None => Entries::empty(),
    }
}

/// The collection after a history of submissions, oldest first, starting from
/// a slot that was never written.
pub open spec fn replayed(history: Seq<SnapshotView>) -> Entries
    decreases history.len(),
{
    if history.len() == 0 {
        Entries::empty()
    } else {
        let latest = history.last();
        submitted(replayed(history.drop_last()), latest.0, latest.1, latest.2)
    }
}

/// Every record stands under its own epoch.
pub open spec fn keyed_by_epoch(collection: Entries) -> bool {
    forall|epoch: u64| #[trigger] collection.contains_key(epoch) ==> collection[epoch].1 == epoch
}

/// What one submission leaves behind: the collection to persist, the one
/// event to emit, and the timestamp to hand back to the caller.
pub struct Submission {
    pub snapshots: SnapshotMap,
    pub event: Record,
    pub timestamp: u64,
}

/// The collection that the slot stands for: the stored one, or a new one
/// without entries where the slot was never written.
pub fn snapshots_or_empty(env: &Env, stored: Option<SnapshotMap>) -> (snapshots: SnapshotMap)
    ensures
        entries(snapshots) == stored_entries(stored),
{
    match stored {
        Some(snapshots) => snapshots,
        None => map_new(env),
    }
}

/// Puts the snapshot under its epoch, replacing the record of that epoch.
pub fn insert_snapshot(snapshots: &mut SnapshotMap, snapshot: Snapshot)
    ensures
        entries(*final(snapshots)) == submitted(
            entries(*old(snapshots)),
            bytes_of(snapshot.hash),
            snapshot.epoch,
            snapshot.timestamp,
        ),
{
    let epoch = snapshot.epoch;
    map_set(snapshots, epoch, snapshot.into_record());
}

/// Reads a list of host values as a snapshot. Only a list of three items is
/// handed to the host for reading; any other list, and a list with an item of
/// another type, holds no snapshot.
pub fn read_snapshot(items: &Items) -> (snapshot: Option<Snapshot>)
    ensures
        viewed(snapshot) == record_in(*items),
{
    if items_len(items) == 3 {
        match items_to_record(items) {
            Ok(record) => Some(Snapshot::from_record(record)),
            Err(_) => None,
        }
    } else {
        None
    }
}

/// Reads the snapshot of an epoch. An epoch without a readable record has
/// none.
pub fn find_snapshot(snapshots: &SnapshotMap, epoch: u64) -> (snapshot: Option<Snapshot>)
    ensures
        viewed(snapshot) == found(entries(*snapshots), epoch),
{
    match map_try_get(snapshots, epoch) {
        Ok(Some(items)) => read_snapshot(&items),
        Ok(None) => None,
        Err(_) => None,
    }
}

/// One submission, given what the host answered: `stored` is what the slot
/// held and `timestamp` the ledger time. The new collection is the old one
/// with the record `(hash, epoch, timestamp)` under `epoch`; the one event
/// carries that same triple; the timestamp handed back is the one recorded.
pub fn record_submission(
    env: &Env,
    stored: Option<SnapshotMap>,
    hash: Bytes,
    epoch: u64,
    timestamp: u64,
) -> (outcome: Submission)
    ensures
        entries(outcome.snapshots) == submitted(
            stored_entries(stored),
            bytes_of(hash),
            epoch,
            timestamp,
        ),
        record_view(outcome.event) == (bytes_of(hash), epoch, outcome.timestamp),
        outcome.timestamp == timestamp,
{
    let snapshot = Snapshot { hash: hash.clone(), epoch, timestamp };
    let mut snapshots = snapshots_or_empty(env, stored);
    insert_snapshot(&mut snapshots, snapshot);
    Submission { snapshots, event: (hash, epoch, timestamp), timestamp }
}

/// One retrieval, given what the host answered: the record that `stored`
/// holds under `epoch`, or `None` where it holds none.
pub fn retrieve(env: &Env, stored: Option<SnapshotMap>, epoch: u64) -> (snapshot: Option<Snapshot>)
    ensures
        viewed(snapshot) == found(stored_entries(stored), epoch),
{
    let snapshots = snapshots_or_empty(env, stored);
    find_snapshot(&snapshots, epoch)
}

} // verus!
