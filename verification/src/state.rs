use vstd::prelude::*;

verus! {

/// The per-administrator vault record: the withdrawal threshold fixed at
/// creation, and the disambiguation bytes of the two deterministic
/// addresses (the record's own, and its custody sub-account's). The record
/// never changes after creation; only the paired custody balance does.
#[derive(Clone, Copy, Debug, PartialEq, Eq, Structural)]
pub struct ReputationVaultState {
    /// Identity of the administrator who created the vault and may raise
    /// reputation scores.
    pub owner: u64,
    /// Minimum reputation score a user must hold to withdraw.
    pub required_score: u64,
    /// Disambiguation byte of the vault record's deterministic address.
    pub state_bump: u8,
    /// Disambiguation byte of the custody sub-account's deterministic
    /// address; presenting it again is the proof of authority for debits.
    pub vault_bump: u8,
}

/// The derivation proof a debit of a custody sub-account must present: the
/// sub-account has no signing key, so authority is shown by reconstructing
/// the same derivation inputs and disambiguation byte used at creation.
#[derive(Clone, Copy, Debug, PartialEq, Eq, Structural)]
pub struct CustodyAuthority {
    /// The administrator identity the custody address was derived from.
    pub administrator: u64,
    /// The disambiguation byte chosen when the address was derived.
    pub bump: u8,
}

impl ReputationVaultState {
    /// The authority this vault's custody sub-account was created under.
    pub open spec fn custody_authority(self) -> CustodyAuthority {
        CustodyAuthority { administrator: self.owner, bump: self.vault_bump }
    }

    /// Reconstruct the custody sub-account's derivation proof from the
    /// vault record, as every withdrawal must.
    pub fn reconstruct_custody_authority(&self) -> (a: CustodyAuthority)
        ensures
            a == self.custody_authority(),
    {
        CustodyAuthority { administrator: self.owner, bump: self.vault_bump }
    }
}

/// The per-user reputation record. The score only ever grows: no decrease
/// operation exists, and only a vault administrator may raise it.
#[derive(Clone, Copy, Debug, PartialEq, Eq, Structural)]
pub struct Reputation {
    /// Identity of the holder.
    pub user: u64,
    /// The accumulated score; monotonically non-decreasing.
    pub score: u64,
    /// Disambiguation byte of the record's deterministic address.
    pub bump: u8,
}

} // verus!
