//! A custody vault gated by an administrator-maintained reputation score.
//!
//! A user may deposit freely into a vault's custody sub-account, but may
//! withdraw only once a separately tracked reputation counter reaches the
//! threshold the vault's administrator fixed at creation. The host account
//! store and its transfer primitive are external collaborators: every
//! operation here takes the records it acts on as explicit parameters and
//! states its full effect in its contract.

use vstd::prelude::*;

pub mod custody;
pub mod errors;
pub mod laws;
pub mod ledger;
pub mod registry;
pub mod state;

use custody::CustodySubAccount;
use custody::transfer_spec;
use errors::VaultError;
use ledger::ReputationLedger;
use state::Reputation;
use state::ReputationVaultState;

verus! {

/// Create a vault for `owner` with the given withdrawal threshold, together
/// with its custody sub-account. Fails with `AlreadyExists` if `owner`
/// already administers a vault.
pub fn initialize(
    vault_registry: &mut registry::VaultRegistry,
    owner: u64,
    required_score: u64,
    state_bump: u8,
    vault_bump: u8,
) -> (r: Result<(ReputationVaultState, CustodySubAccount), VaultError>)
    requires
        old(vault_registry).wf(),
    ensures
        final(vault_registry).wf(),
        registry::find_vault(old(vault_registry)@, owner) is Some ==> {
            &&& r == Err::<(ReputationVaultState, CustodySubAccount), VaultError>(
                VaultError::AlreadyExists,
            )
            &&& final(vault_registry)@ == old(vault_registry)@
        },
        registry::find_vault(old(vault_registry)@, owner) is None ==> {
            let v = (ReputationVaultState { owner, required_score, state_bump, vault_bump });
            let c = (CustodySubAccount { administrator: owner, bump: vault_bump, balance: 0 });
            &&& r == Ok::<(ReputationVaultState, CustodySubAccount), VaultError>((v, c))
            &&& final(vault_registry)@ == seq![v] + old(vault_registry)@
            &&& registry::find_vault(final(vault_registry)@, owner) == Some(v)
            &&& forall|a: u64|
                a != owner ==> registry::find_vault(final(vault_registry)@, a)
                    == registry::find_vault(old(vault_registry)@, a)
        },
{
    vault_registry.create_vault(owner, required_score, state_bump, vault_bump)
}

/// Create the reputation record for `user`, starting at a zero score.
/// Fails with `AlreadyExists` if the user already has one.
pub fn initialize_reputation(
    reputation_ledger: &mut ReputationLedger,
    user: u64,
    bump: u8,
) -> (r: Result<Reputation, VaultError>)
    requires
        old(reputation_ledger).wf(),
    ensures
        final(reputation_ledger).wf(),
        ledger::find_reputation(old(reputation_ledger)@, user) is Some ==> {
            &&& r == Err::<Reputation, VaultError>(VaultError::AlreadyExists)
            &&& final(reputation_ledger)@ == old(reputation_ledger)@
        },
        ledger::find_reputation(old(reputation_ledger)@, user) is None ==> {
            let rec = (Reputation { user, score: 0, bump });
            &&& r == Ok::<Reputation, VaultError>(rec)
            &&& ledger::find_reputation(final(reputation_ledger)@, user) == Some(rec)
            &&& forall|u: u64|
                u != user ==> ledger::find_reputation(final(reputation_ledger)@, u)
                    == ledger::find_reputation(old(reputation_ledger)@, u)
        },
{
    reputation_ledger.create_reputation(user, bump)
}

/// Move `amount` from the depositor's wallet into the vault's custody
/// pool. Depositing needs no reputation and no authorization beyond the
/// depositor paying; the pool is shared, with no per-depositor tracking.
/// Fails with `TransferFailed`, moving nothing, if the wallet is short or
/// the pool would overflow.
pub fn deposit(
    custody: &mut CustodySubAccount,
    depositor_wallet: &mut u64,
    amount: u64,
) -> (r: Result<(), VaultError>)
    ensures
        match old(custody).deposit_spec(*old(depositor_wallet), amount) {
            Some(p) => r is Ok && *final(custody) == p.0 && *final(depositor_wallet) == p.1,
            None => {
                &&& r == Err::<(), VaultError>(VaultError::TransferFailed)
                &&& *final(custody) == *old(custody)
                &&& *final(depositor_wallet) == *old(depositor_wallet)
            },
        },
        final(custody).administrator == old(custody).administrator,
        final(custody).bump == old(custody).bump,
        final(custody).balance + *final(depositor_wallet) == old(custody).balance + *old(
            depositor_wallet,
        ),
{
    custody.deposit(depositor_wallet, amount)
}

/// Raise the holder's score by `points` on `caller`'s authority. Only the
/// administrator of the presented vault may do so; on success the score is
/// exactly additive, and on any failure the record is unchanged. The
/// holder, the record's disambiguation byte, and monotonicity of the score
/// are preserved in every case.
pub fn increase_reputation(
    caller: u64,
    vault_state: &ReputationVaultState,
    reputation: &mut Reputation,
    points: u64,
) -> (r: Result<(), VaultError>)
    ensures
        final(reputation).user == old(reputation).user,
        final(reputation).bump == old(reputation).bump,
        final(reputation).score >= old(reputation).score,
        caller != vault_state.owner ==> {
            &&& r == Err::<(), VaultError>(VaultError::Unauthorized)
            &&& *final(reputation) == *old(reputation)
        },
        caller == vault_state.owner && old(reputation).score + points > u64::MAX ==> {
            &&& r == Err::<(), VaultError>(VaultError::Overflow)
            &&& *final(reputation) == *old(reputation)
        },
        caller == vault_state.owner && old(reputation).score + points <= u64::MAX ==> {
            &&& r is Ok
            &&& final(reputation).score == old(reputation).score + points
        },
{
    if caller != vault_state.owner {
        return Err(VaultError::Unauthorized);
    }
    if points > u64::MAX - reputation.score {
        return Err(VaultError::Overflow);
    }
    reputation.score = reputation.score + points;
    Ok(())
}

/// Withdraw `amount` from the vault's custody pool into the requester's
/// wallet. The preconditions, checked in order before anything moves: the
/// presented reputation record is the requester's own, its score reaches
/// the vault's threshold, the custody sub-account accepts the authority
/// reconstructed from the vault record, and the pool covers the amount.
/// Any failure moves nothing.
pub fn withdraw(
    vault_state: &ReputationVaultState,
    reputation: &Reputation,
    requester: u64,
    custody: &mut CustodySubAccount,
    requester_wallet: &mut u64,
    amount: u64,
) -> (r: Result<(), VaultError>)
    ensures
        final(custody).administrator == old(custody).administrator,
        final(custody).bump == old(custody).bump,
        final(custody).balance + *final(requester_wallet) == old(custody).balance + *old(
            requester_wallet,
        ),
        reputation.user != requester ==> {
            &&& r == Err::<(), VaultError>(VaultError::Unauthorized)
            &&& *final(custody) == *old(custody)
            &&& *final(requester_wallet) == *old(requester_wallet)
        },
        reputation.user == requester && reputation.score < vault_state.required_score ==> {
            &&& r == Err::<(), VaultError>(VaultError::InsufficientReputation)
            &&& *final(custody) == *old(custody)
            &&& *final(requester_wallet) == *old(requester_wallet)
        },
        reputation.user == requester && reputation.score >= vault_state.required_score ==> {
            &&& !old(custody).accepts_authority(vault_state.custody_authority()) ==> {
                &&& r == Err::<(), VaultError>(VaultError::TransferFailed)
                &&& *final(custody) == *old(custody)
                &&& *final(requester_wallet) == *old(requester_wallet)
            }
            &&& old(custody).accepts_authority(vault_state.custody_authority()) ==> match
                transfer_spec(old(custody).balance, *old(requester_wallet), amount) {
                Some(p) => {
                    &&& r is Ok
                    &&& final(custody).balance == p.0
                    &&& *final(requester_wallet) == p.1
                },
                None => {
                    &&& r == Err::<(), VaultError>(VaultError::TransferFailed)
                    &&& *final(custody) == *old(custody)
                    &&& *final(requester_wallet) == *old(requester_wallet)
                },
            }
        },
{
    if reputation.user != requester {
        return Err(VaultError::Unauthorized);
    }
    if reputation.score < vault_state.required_score {
        return Err(VaultError::InsufficientReputation);
    }
    let authority = vault_state.reconstruct_custody_authority();
    custody.pay_out(authority, requester_wallet, amount)
}

} // verus!
