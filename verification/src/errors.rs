use vstd::prelude::*;

verus! {

/// The failure kinds of the vault ledger's state transitions.
///
/// Every precondition violation aborts the whole transition with no partial
/// mutation; the error says which precondition failed.
#[derive(Clone, Copy, Debug, PartialEq, Eq, Structural)]
pub enum VaultError {
    /// The vault does not have enough balance to complete the transaction.
    InsufficientBalance,
    /// The SPL token type provided is invalid.
    InvalidSPLTokenType,
    /// Action not permitted: the vault owner is not the signer of the
    /// transaction.
    InvalidVaultOwner,
    /// Interest has not been accrued yet; the vault is younger than one month.
    InterestNotAccruedYet,
    /// A one-time setup transition was run a second time.
    AlreadyInitialized,
    /// A recomputed derived address does not match the expected record
    /// address.
    AddressDerivationMismatch,
}

} // verus!
