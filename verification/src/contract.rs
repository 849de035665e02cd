//! The contract's two entry points. Each asks the host for what only the
//! host knows, lets the store decide, and hands the host what it is to keep
//! and to announce.
use vstd::prelude::*;
use soroban_sdk::Bytes;
use crate::host::{
    bytes_of, emitted, ledger_timestamp, load_slot, persisted, publish_event, save_snapshots,
    value_to_map, Entries, Host, SnapshotMap,
};
use crate::snapshot::{submitted_topic, submitted_topic_name, viewed, DataKey, Snapshot};
use crate::store::{found, record_submission, retrieve, stored_entries, submitted};

verus! {

/// The collection of snapshots that the host holds: the dictionary in the
/// contract's one slot, or the collection without entries while the slot
/// holds no dictionary.
pub open spec fn collection(host: Host) -> Entries {
    if persisted(host).contains_key(DataKey::Snapshots.spec_name()) {
        persisted(host)[DataKey::Snapshots.spec_name()]
    } else {
        Entries::empty()
    }
}

/// The snapshot contract: a store of content hashes, one per epoch.
pub struct SnapshotContract;

/// Reads the contract's slot: the dictionary that it holds, or `None` where
/// it holds nothing or something that is no dictionary.
pub fn stored_collection(host: &Host) -> (stored: Option<SnapshotMap>)
    ensures
        stored_entries(stored) == collection(*host),
        stored is Some == persisted(*host).contains_key(DataKey::Snapshots.spec_name()),
{
    match load_slot(host, DataKey::Snapshots.name()) {
        Some(value) => match value_to_map(host.env(), value) {
            Ok(snapshots) => Some(snapshots),
            Err(_) => None,
        },
        None => None,
    }
}

impl SnapshotContract {
    /// Records `hash` for `epoch` at the current ledger time and returns that
    /// time. The record `(hash, epoch, timestamp)` takes the place of any
    /// record held for `epoch`, and every other record stays. The whole
    /// collection is written back to its slot, no other slot is touched, and
    /// exactly one event is emitted, under the submission topic and carrying
    /// that same triple.
    pub fn submit_snapshot(host: &mut Host, hash: Bytes, epoch: u64) -> (timestamp: u64)
        ensures
            collection(*final(host)) == submitted(
                collection(*old(host)),
                bytes_of(hash),
                epoch,
                timestamp,
            ),
            persisted(*final(host)) == persisted(*old(host)).insert(
                DataKey::Snapshots.spec_name(),
                collection(*final(host)),
            ),
            emitted(*final(host)) == emitted(*old(host)).push(
                (submitted_topic_name(), (bytes_of(hash), epoch, timestamp)),
            ),
    {
        let timestamp = ledger_timestamp(host);
        let stored = stored_collection(host);
        let outcome = record_submission(host.env(), stored, hash, epoch, timestamp);
        save_snapshots(host, DataKey::Snapshots.name(), &outcome.snapshots);
        publish_event(host, submitted_topic(), outcome.event);
        outcome.timestamp
    }

    /// The snapshot that the collection holds for `epoch`, or `None` where it
    /// holds none. The host is only read: nothing is written and no event is
    /// emitted.
    pub fn get_snapshot(host: &Host, epoch: u64) -> (snapshot: Option<Snapshot>)
        ensures
            viewed(snapshot) == found(collection(*host), epoch),
    {
        let stored = stored_collection(host);
        retrieve(host.env(), stored, epoch)
    }
}

} // verus!
