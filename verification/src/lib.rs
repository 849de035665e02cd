//! A store of content hashes on the Soroban ledger: one snapshot per epoch,
//! submitted with `submit_snapshot` and read back with `get_snapshot`.
pub mod contract;
pub mod host;
pub mod laws;
pub mod snapshot;
pub mod store;

pub use contract::SnapshotContract;
pub use host::Host;
pub use snapshot::{DataKey, Snapshot};
