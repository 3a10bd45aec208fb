use vstd::prelude::*;

use crate::custody::CustodySubAccount;
use crate::ledger::find_reputation;
use crate::registry::find_vault;
use crate::state::Reputation;
use crate::state::ReputationVaultState;

verus! {

/// Creating a vault and then looking it up returns a record carrying
/// exactly the creating administrator and threshold; and since the record
/// is then found, a second creation for the same administrator is refused
/// with `AlreadyExists`.
pub proof fn lemma_vault_create_then_lookup(
    vaults: Seq<ReputationVaultState>,
    administrator: u64,
    required_score: u64,
    state_bump: u8,
    vault_bump: u8,
)
    requires
        find_vault(vaults, administrator) is None,
    ensures
        ({
            let v = (ReputationVaultState {
                owner: administrator,
                required_score,
                state_bump,
                vault_bump,
            });
            let after = seq![v] + vaults;
            &&& find_vault(after, administrator) == Some(v)
            &&& v.owner == administrator
            &&& v.required_score == required_score
        }),
{
    let v = ReputationVaultState { owner: administrator, required_score, state_bump, vault_bump };
    assert((seq![v] + vaults)[0] == v);
}

/// Creating a reputation record initializes its score to zero, and the
/// record is then found for its user, so a second creation for the same
/// user is refused with `AlreadyExists`.
pub proof fn lemma_reputation_create_then_lookup(records: Seq<Reputation>, user: u64, bump: u8)
    requires
        find_reputation(records, user) is None,
    ensures
        ({
            let rec = (Reputation { user, score: 0, bump });
            let after = seq![rec] + records;
            &&& find_reputation(after, user) == Some(rec)
            &&& rec.score == 0
        }),
{
    let rec = Reputation { user, score: 0, bump };
    assert((seq![rec] + records)[0] == rec);
}

/// Two sequential deposits into the same custody pool from the same
/// wallet both succeed when the wallet covers their sum and the pool has
/// room for it, and they add exactly that sum to the pool and take exactly
/// that sum from the wallet, in either order.
pub proof fn lemma_deposit_order_independent(
    custody: CustodySubAccount,
    wallet: u64,
    a: u64,
    b: u64,
)
    requires
        a + b <= wallet,
        custody.balance + a + b <= u64::MAX,
    ensures
        ({
            let first_a = custody.deposit_spec(wallet, a).unwrap();
            let then_b = first_a.0.deposit_spec(first_a.1, b).unwrap();
            let first_b = custody.deposit_spec(wallet, b).unwrap();
            let then_a = first_b.0.deposit_spec(first_b.1, a).unwrap();
            &&& custody.deposit_spec(wallet, a) is Some
            &&& first_a.0.deposit_spec(first_a.1, b) is Some
            &&& custody.deposit_spec(wallet, b) is Some
            &&& first_b.0.deposit_spec(first_b.1, a) is Some
            &&& then_b == then_a
            &&& then_b.0.balance == custody.balance + a + b
            &&& then_b.1 == wallet - a - b
        }),
{
}

} // verus!
