use vstd::prelude::*;

verus! {

/// The failures the vault system reports. Every operation checks its
/// preconditions before mutating anything, so a failure always leaves the
/// records and balances it was handed unchanged.
#[derive(Clone, Copy, Debug, PartialEq, Eq, Structural)]
pub enum VaultError {
    /// A record already exists at the deterministic address a creation
    /// operation would use.
    AlreadyExists,
    /// A lookup found no record for the given identity.
    NotFound,
    /// The caller is not the principal the operation requires: not the
    /// vault's administrator for a privileged call, or not the holder of
    /// the reputation record presented for a withdrawal.
    Unauthorized,
    /// The requester's reputation score is below the vault's threshold.
    InsufficientReputation,
    /// Accumulating reputation would exceed the representable range.
    Overflow,
    /// The transfer capability refused the move: the paying account's
    /// balance is insufficient, the receiving balance would overflow, or
    /// the custody debit was not authorized by the creation-time
    /// derivation proof.
    TransferFailed,
}

} // verus!
