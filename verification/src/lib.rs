//! A point-in-time snapshot of a chain's address balances: a builder collects
//! the chain label, a minimum-balance threshold, an exclusion list, an
//! optional cap on how many addresses the provider is asked for, and an
//! optional export location; finalization filters what the provider returned
//! and keeps the provider's aggregate total untouched. Balances are whole
//! atomic units of the chain's coin. Talking to the node and writing the
//! export file are the caller's part; every rule about what is kept, in what
//! order, and what each failure means lives here.

pub mod error;
pub mod snapshot;

pub use error::ErrorKind;
pub use error::SnapshotError;
pub use snapshot::Address;
pub use snapshot::Snapshot;
pub use snapshot::SnapshotBuilder;
