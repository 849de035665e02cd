//! What holds of every collection and every submission, proved from the
//! definitions that the store's contracts are stated in.
use vstd::prelude::*;
use crate::host::{Entries, SnapshotView};
use crate::store::{found, keyed_by_epoch, replayed, stored_entries, submitted};

verus! {

/// Round trip: right after a submission of `hash` for `epoch` at `timestamp`,
/// the record of `epoch` is exactly `(hash, epoch, timestamp)`.
pub proof fn round_trip(before: Entries, hash: Seq<u8>, epoch: u64, timestamp: u64)
    ensures
        found(submitted(before, hash, epoch, timestamp), epoch) == Some((hash, epoch, timestamp)),
{
}

/// A slot that was never written holds no record for any epoch.
pub proof fn absent_before_any_submission(epoch: u64)
    ensures
        found(stored_entries(None), epoch) is None,
{
}

/// Absence: an epoch that no submission of the history was made for has no
/// record.
pub proof fn absent_unless_submitted(history: Seq<SnapshotView>, epoch: u64)
    requires
        forall|i: int| 0 <= i < history.len() ==> (#[trigger] history[i]).1 != epoch,
    ensures
        found(replayed(history), epoch) is None,
    decreases history.len(),
{
    if history.len() > 0 {
        let earlier = history.drop_last();
        assert forall|i: int| 0 <= i < earlier.len() implies (#[trigger] earlier[i]).1 != epoch by {
            assert(earlier[i] == history[i]);
        }
        absent_unless_submitted(earlier, epoch);
    }
}

/// Overwrite: of two submissions for one epoch only the second is left. Its
/// record is the one found, and the collection is the one that the second
/// submission alone would have made.
pub proof fn overwrite(
    before: Entries,
    first_hash: Seq<u8>,
    first_timestamp: u64,
    second_hash: Seq<u8>,
    second_timestamp: u64,
    epoch: u64,
)
    ensures
        found(
            submitted(
                submitted(before, first_hash, epoch, first_timestamp),
                second_hash,
                epoch,
                second_timestamp,
            ),
            epoch,
        ) == Some((second_hash, epoch, second_timestamp)),
        submitted(
            submitted(before, first_hash, epoch, first_timestamp),
            second_hash,
            epoch,
            second_timestamp,
        ) == submitted(before, second_hash, epoch, second_timestamp),
{
    assert(submitted(
        submitted(before, first_hash, epoch, first_timestamp),
        second_hash,
        epoch,
        second_timestamp,
    ) =~= submitted(before, second_hash, epoch, second_timestamp));
}

/// Independence: a submission for one epoch leaves the record of every other
/// epoch as it was, present or absent.
pub proof fn independence(before: Entries, hash: Seq<u8>, epoch: u64, timestamp: u64, other: u64)
    requires
        other != epoch,
    ensures
        found(submitted(before, hash, epoch, timestamp), other) == found(before, other),
{
}

/// Nothing is ever removed: an epoch that some submission of the history was
/// made for has a record, however many submissions followed.
pub proof fn submitted_epochs_stay(history: Seq<SnapshotView>, index: int)
    requires
        0 <= index < history.len(),
    ensures
        found(replayed(history), history[index].1) is Some,
    decreases history.len(),
{
    let earlier = history.drop_last();
    if index < history.len() - 1 {
        assert(earlier[index] == history[index]);
        submitted_epochs_stay(earlier, index);
    }
}

/// A submission keeps every record under its own epoch.
pub proof fn submission_keeps_keys(before: Entries, hash: Seq<u8>, epoch: u64, timestamp: u64)
    requires
        keyed_by_epoch(before),
    ensures
        keyed_by_epoch(submitted(before, hash, epoch, timestamp)),
{
}

/// After any history of submissions, every record stands under its own epoch.
pub proof fn replayed_keyed_by_epoch(history: Seq<SnapshotView>)
    ensures
        keyed_by_epoch(replayed(history)),
    decreases history.len(),
{
    if history.len() > 0 {
        let latest = history.last();
        replayed_keyed_by_epoch(history.drop_last());
        submission_keeps_keys(replayed(history.drop_last()), latest.0, latest.1, latest.2);
    }
}

/// After any history of submissions, the record of an epoch is the one that
/// the latest submission for that epoch made.
pub proof fn latest_submission_wins(history: Seq<SnapshotView>, latest: int)
    requires
        0 <= latest < history.len(),
        forall|i: int| latest < i < history.len() ==> (#[trigger] history[i]).1 != history[latest].1,
    ensures
        found(replayed(history), history[latest].1) == Some(history[latest]),
    decreases history.len(),
{
    let earlier = history.drop_last();
    if latest < history.len() - 1 {
        assert(earlier[latest] == history[latest]);
        assert forall|i: int| latest < i < earlier.len() implies (#[trigger] earlier[i]).1
            != earlier[latest].1 by {
            assert(earlier[i] == history[i]);
        }
        latest_submission_wins(earlier, latest);
    }
}

} // verus!
