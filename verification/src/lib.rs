//! A custodial token-vault ledger with periodic interest distribution.
//!
//! The library models the authoritative ledger records (`ProgramInfo` and
//! `Vault`), the state transitions that create and mutate them (create,
//! deposit, withdraw, mint, distribute interest), the time gate and formula
//! of the interest scheduler, and the deterministic address derivation that
//! lets a driver enumerate every vault without an index table. Network
//! transport, signing and transaction plumbing stay outside the library.

pub mod addressing;
pub mod codec;
pub mod errors;
pub mod instructions;
pub mod interest;
pub mod ledger;
pub mod state;
