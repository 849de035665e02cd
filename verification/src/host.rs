//! The boundary to the Soroban host.
//!
//! Everything the contract needs from `soroban_sdk` is declared here and
//! nowhere else: the host types it carries around, what the host's
//! collections hold, and one thin wrapper per SDK call. The contracts in this
//! file are believed, not proved; each doc comment says what is claimed of
//! the SDK.
//!
//! Three conventions of the host hold throughout. Every value belongs to the
//! one host of the running invocation, reached through its `Env`. A [`Host`]
//! stands for that host for the length of one invocation of the contract,
//! during which nothing else touches the contract's storage or its events.
//! And a host call that the host refuses (no running contract, an exhausted
//! budget) aborts the whole invocation with no effect: a contract below
//! describes a call that returns. A value of another shape than the contract
//! writes is no refusal: it is read as what it is, and the store decides.
use vstd::prelude::*;

verus! {

/// The handle to the host of the running invocation.
#[verifier::external_type_specification]
#[verifier::external_body]
pub struct ExEnv(soroban_sdk::Env);

/// An immutable byte string kept by the host.
#[verifier::external_type_specification]
#[verifier::external_body]
pub struct ExBytes(soroban_sdk::Bytes);

/// Any value of the host, not yet read as a type.
#[verifier::external_type_specification]
#[verifier::external_body]
pub struct ExVal(soroban_sdk::Val);

/// The error of reading a host value as a type that it does not have.
#[verifier::external_type_specification]
#[verifier::external_body]
pub struct ExConversionError(soroban_sdk::ConversionError);

/// The host's error value.
#[verifier::external_type_specification]
#[verifier::external_body]
pub struct ExError(soroban_sdk::Error);

/// The host's list, typed by the SDK.
#[verifier::external_type_specification]
#[verifier::external_body]
#[verifier::reject_recursive_types(T)]
pub struct ExVec<T>(soroban_sdk::Vec<T>);

/// The host's ordered dictionary, typed by the SDK.
#[verifier::external_type_specification]
#[verifier::external_body]
#[verifier::reject_recursive_types(K)]
#[verifier::reject_recursive_types(V)]
pub struct ExMap<K, V>(soroban_sdk::Map<K, V>);

/// A snapshot on its way to or from the host: the triple
/// `(hash, epoch, timestamp)`.
pub type Record = (soroban_sdk::Bytes, u64, u64);

/// A list of host values, as the host keeps a record: read as a record only
/// after its length is known.
pub type Items = soroban_sdk::Vec<soroban_sdk::Val>;

/// The persisted collection: a host dictionary from epoch to the items of a
/// record.
pub type SnapshotMap = soroban_sdk::Map<u64, Items>;

/// The answer of a lookup in the collection: the items under the epoch, their
/// absence, or the error of reading what stands there as a list.
pub type Lookup = Result<Option<Items>, soroban_sdk::ConversionError>;

/// The answer of reading a stored value as the collection: the dictionary,
/// or the error of reading a value that is none.
pub type Reading = Result<SnapshotMap, soroban_sdk::ConversionError>;

/// What a record says: the bytes of its hash, its epoch, its timestamp.
pub type SnapshotView = (Seq<u8>, u64, u64);

/// What a collection says: for each epoch it holds, the record stored there.
pub type Entries = Map<u64, SnapshotView>;

/// What the contract's persistent storage says: for each named slot that
/// holds a dictionary, the entries of that dictionary.
pub type Slots = Map<Seq<char>, Entries>;

/// What an event says: its one topic, and the record it carries.
pub type Event = (Seq<char>, SnapshotView);

/// The host of one invocation of the contract: its clock, the contract's
/// persistent storage and the sink of its events. Whoever makes one hands
/// over the `Env` for as long as the value lives: what the storage and the
/// sink hold then changes through this value alone.
pub struct Host {
    env: soroban_sdk::Env,
}

impl Host {
    /// The host handle that this value holds.
    pub closed spec fn handle(self) -> soroban_sdk::Env {
        self.env
    }

    /// The host of the invocation that `env` belongs to.
    pub fn new(env: soroban_sdk::Env) -> (host: Host)
        ensures
            host.handle() == env,
    {
        Host { env }
    }

    /// The host handle, for making host values.
    pub fn env(&self) -> (env: &soroban_sdk::Env)
        ensures
            *env == self.handle(),
    {
        &self.env
    }
}

/// The bytes that a host byte string holds, in order.
pub uninterp spec fn bytes_of(bytes: soroban_sdk::Bytes) -> Seq<u8>;

/// The number of items in a host list.
pub uninterp spec fn item_count(items: Items) -> nat;

/// The triple that the SDK reads from a host list of three items: there is
/// one exactly when the items are a byte string and two unsigned 64-bit
/// numbers.
pub uninterp spec fn triple_in(items: Items) -> Option<SnapshotView>;

/// The entries of the dictionary that a host value is: there are some exactly
/// when the value is a dictionary.
pub uninterp spec fn dictionary_in(value: soroban_sdk::Val) -> Option<Entries>;

/// The entries of a host dictionary: an epoch is in the domain exactly when
/// the dictionary holds under it a list that reads as a record, and is then
/// mapped to that record.
pub uninterp spec fn entries(snapshots: SnapshotMap) -> Entries;

/// What the persistent storage of the running contract holds: a name is in
/// the domain exactly when the slot of that name holds a dictionary, and is
/// then mapped to the entries of that dictionary.
pub uninterp spec fn persisted(host: Host) -> Slots;

/// The events of one topic and a record as data that the running contract
/// has emitted so far, oldest first.
pub uninterp spec fn emitted(host: Host) -> Seq<Event>;

/// What a record says.
pub open spec fn record_view(record: Record) -> SnapshotView {
    (bytes_of(record.0), record.1, record.2)
}

/// The record that a host list reads as: the triple in a list of three items,
/// and none in a list of any other length.
pub open spec fn record_in(items: Items) -> Option<SnapshotView> {
    if item_count(items) == 3 {
        triple_in(items)
    } else {
        None
    }
}

/// The characters that a host symbol may hold.
pub open spec fn is_symbol_char(c: char) -> bool {
    ||| 'a' <= c <= 'z'
    ||| 'A' <= c <= 'Z'
    ||| '0' <= c <= '9'
    ||| c == '_'
}

/// The strings that the host accepts as a symbol: at most 32 characters, each
/// a letter, a digit or an underscore.
pub open spec fn is_symbol_name(name: Seq<char>) -> bool {
    &&& name.len() <= 32
    &&& forall|i: int| 0 <= i < name.len() ==> is_symbol_char(#[trigger] name[i])
}

/// `Clone` for `soroban_sdk::Bytes`, which the SDK derives: the copy is a
/// second handle to the same host object, so it holds the same bytes.
pub assume_specification[ <soroban_sdk::Bytes as Clone>::clone ](
    bytes: &soroban_sdk::Bytes,
) -> (copy: soroban_sdk::Bytes)
    ensures
        bytes_of(copy) == bytes_of(*bytes),
;

/// `Env::ledger` and `Ledger::timestamp`: the close time of the current
/// ledger. It is the host's to choose, so nothing is claimed of it.
#[verifier::external_body]
pub(crate) fn ledger_timestamp(host: &Host) -> (timestamp: u64) {
    host.env.ledger().timestamp()
}

/// `Persistent::get` under the symbol `slot` (made by `Symbol::new`, which
/// accepts exactly the names required here), with the value left unread:
/// what the running contract keeps in that slot, or `None` when the slot
/// holds nothing. The storage holds a collection under the name exactly when
/// that value is a dictionary.
#[verifier::external_body]
pub(crate) fn load_slot(host: &Host, slot: &str) -> (stored: Option<soroban_sdk::Val>)
    requires
        is_symbol_name(slot@),
    ensures
        stored is None ==> !persisted(*host).contains_key(slot@),
        stored matches Some(value) ==> persisted(*host).contains_key(slot@)
            == (dictionary_in(value) is Some),
        stored matches Some(value) ==> (dictionary_in(value) matches Some(held)
            ==> persisted(*host)[slot@] == held),
{
    host.env.storage().persistent().get(&soroban_sdk::Symbol::new(&host.env, slot))
}

/// `TryFromVal::try_from_val` for `Map`: the value as a dictionary, or the
/// conversion's error when it is none.
#[verifier::external_body]
pub(crate) fn value_to_map(env: &soroban_sdk::Env, value: soroban_sdk::Val) -> (read: Reading)
    ensures
        read matches Ok(snapshots) ==> dictionary_in(value) == Some(entries(snapshots)),
        read is Err ==> dictionary_in(value) is None,
{
    soroban_sdk::TryFromVal::try_from_val(env, &value)
}

/// `Persistent::set` under the symbol `slot` (made by `Symbol::new`): the
/// slot then holds the dictionary, every other slot what it held, and no
/// event is emitted.
#[verifier::external_body]
pub(crate) fn save_snapshots(host: &mut Host, slot: &str, snapshots: &SnapshotMap)
    requires
        is_symbol_name(slot@),
    ensures
        persisted(*final(host)) == persisted(*old(host)).insert(slot@, entries(*snapshots)),
        emitted(*final(host)) == emitted(*old(host)),
{
    host.env.storage().persistent().set(&soroban_sdk::Symbol::new(&host.env, slot), snapshots)
}

/// `Events::publish` with the one topic `topic` (made by `Symbol::new`) and
/// the record as data: one event more is emitted, after those emitted before,
/// and the storage holds what it held.
#[verifier::external_body]
#[allow(deprecated)]
pub(crate) fn publish_event(host: &mut Host, topic: &str, payload: Record)
    requires
        is_symbol_name(topic@),
    ensures
        emitted(*final(host)) == emitted(*old(host)).push((topic@, record_view(payload))),
        persisted(*final(host)) == persisted(*old(host)),
{
    host.env.events().publish((soroban_sdk::Symbol::new(&host.env, topic),), payload)
}

/// `Map::new`: a dictionary without entries.
#[verifier::external_body]
pub(crate) fn map_new(env: &soroban_sdk::Env) -> (snapshots: SnapshotMap)
    ensures
        entries(snapshots) == Entries::empty(),
{
    soroban_sdk::Map::new(env)
}

/// `Map::set`, with the record turned into the list of its three items: the
/// value under `epoch` is replaced by the record, or added where there was
/// none; every other entry stays as it was.
#[verifier::external_body]
pub(crate) fn map_set(snapshots: &mut SnapshotMap, epoch: u64, record: Record)
    ensures
        entries(*final(snapshots)) == entries(*old(snapshots)).insert(epoch, record_view(record)),
{
    let items: Items = soroban_sdk::IntoVal::into_val(&record, snapshots.env());
    snapshots.set(epoch, items)
}

/// `Map::try_get`: `Ok(Some(..))` with the list under `epoch`, which reads as
/// a record exactly when `epoch` has an entry; `Ok(None)` when the dictionary
/// has nothing under `epoch`; the conversion's error when what it has there
/// is no list.
#[verifier::external_body]
pub(crate) fn map_try_get(snapshots: &SnapshotMap, epoch: u64) -> (found: Lookup)
    ensures
        found matches Ok(Some(items)) ==> (record_in(items) is Some)
            == entries(*snapshots).contains_key(epoch),
        found matches Ok(Some(items)) ==> (record_in(items) matches Some(record)
            ==> entries(*snapshots)[epoch] == record),
        found matches Ok(None) ==> !entries(*snapshots).contains_key(epoch),
        found is Err ==> !entries(*snapshots).contains_key(epoch),
{
    snapshots.try_get(epoch)
}

/// `Vec::len`: the number of items.
#[verifier::external_body]
pub(crate) fn items_len(items: &Items) -> (len: u32)
    ensures
        len == item_count(*items),
{
    items.len()
}

/// `TryFromVal::try_from_val` for the triple, on a list of three items: the
/// triple that the list holds, or the conversion's error when an item is of
/// another type. It unpacks the list into three places, which the host
/// refuses for a list of another length.
#[verifier::external_body]
pub(crate) fn items_to_record(items: &Items) -> (read: Result<Record, soroban_sdk::Error>)
    requires
        item_count(*items) == 3,
    ensures
        read matches Ok(record) ==> triple_in(*items) == Some(record_view(record)),
        read is Err ==> triple_in(*items) is None,
{
    soroban_sdk::TryFromVal::try_from_val(items.env(), &items.to_val())
}

} // verus!
