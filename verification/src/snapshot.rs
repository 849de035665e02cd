//! The stored record, and the fixed names under which the contract keeps its
//! collection and announces a submission.
use vstd::prelude::*;
use soroban_sdk::Bytes;
use crate::host::{bytes_of, is_symbol_name, Record, SnapshotView};

verus! {

/// One submitted snapshot: a content hash, the epoch it was submitted for,
/// and the ledger time at which the host accepted it.
#[derive(Clone, Debug, PartialEq, Eq)]
pub struct Snapshot {
    pub hash: Bytes,
    pub epoch: u64,
    pub timestamp: u64,
}

impl View for Snapshot {
    type V = SnapshotView;

    /// What the snapshot says: the bytes of its hash, its epoch, its timestamp.
    open spec fn view(&self) -> SnapshotView {
        (bytes_of(self.hash), self.epoch, self.timestamp)
    }
}

impl Snapshot {
    /// The snapshot that a host record holds.
    pub fn from_record(record: Record) -> (snapshot: Snapshot)
        ensures
            snapshot@ == crate::host::record_view(record),
    {
        Snapshot { hash: record.0, epoch: record.1, timestamp: record.2 }
    }

    /// The host record that holds this snapshot.
    pub fn into_record(self) -> (record: Record)
        ensures
            crate::host::record_view(record) == self@,
    {
        (self.hash, self.epoch, self.timestamp)
    }
}

/// What an optional snapshot says.
pub open spec fn viewed(snapshot: Option<Snapshot>) -> Option<SnapshotView> {
    match snapshot {
        Some(snapshot) => Some(snapshot@),
        None => None,
    }
}

/// The keys of the contract's persistent storage.
pub enum DataKey {
    /// The one slot that holds the whole collection of snapshots.
    Snapshots,
}

impl DataKey {
    /// The name of the slot, as a sequence of characters.
    pub open spec fn spec_name(self) -> Seq<char> {
        match self {
            DataKey::Snapshots => "Snapshots"@,
        }
    }

    /// The name of the slot. The host accepts it as a symbol.
    pub fn name(&self) -> (name: &'static str)
        ensures
            name@ == self.spec_name(),
            is_symbol_name(name@),
    {
        proof {
            reveal_strlit("Snapshots");
        }
        match self {
            DataKey::Snapshots => "Snapshots",
        }
    }
}

/// The topic of the event that announces a submission.
pub const SNAPSHOT_SUBMITTED: &'static str = "SNAP_SUB";

/// The topic of the event that announces a submission, as a sequence of
/// characters.
pub open spec fn submitted_topic_name() -> Seq<char> {
    "SNAP_SUB"@
}

/// The topic of the event that announces a submission. The host accepts it as
/// a symbol.
pub fn submitted_topic() -> (topic: &'static str)
    ensures
        topic@ == submitted_topic_name(),
        is_symbol_name(topic@),
{
    proof {
        reveal_strlit("SNAP_SUB");
    }
    SNAPSHOT_SUBMITTED
}

} // verus!
