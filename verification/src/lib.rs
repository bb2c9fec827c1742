//! Validation logic for a singleton on-chain time oracle record.
//!
//! The oracle record holds an immutable 32-byte identity and a monotonically
//! increasing millisecond timestamp. A transaction either initializes the
//! oracle (genesis) or updates it; every update is rate-limited, anchored to
//! a block header pulled in as a transaction dependency, and coupled to a
//! bounded issuance of the oracle's own fungible token. The validator runs
//! over an immutable snapshot of the transaction and returns an accept
//! verdict or the first violated rule.

pub mod codec;
pub mod entry;
pub mod error;
pub mod hashing;
pub mod laws;
pub mod tx;
