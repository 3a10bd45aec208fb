use reputation_vault::errors::VaultError;
use reputation_vault::increase_reputation;
use reputation_vault::ledger::ReputationLedger;
use reputation_vault::state::{Reputation, ReputationVaultState};

const ADMIN: u64 = 11;
const USER: u64 = 22;
const STRANGER: u64 = 33;

fn vault_record(required_score: u64) -> ReputationVaultState {
    ReputationVaultState {
        owner: ADMIN,
        required_score,
        state_bump: 250,
        vault_bump: 251,
    }
}

#[test]
fn create_reputation_starts_at_zero() {
    let mut ledger = ReputationLedger::new();
    let record = reputation_vault::initialize_reputation(&mut ledger, USER, 252).unwrap();
    assert_eq!(record.user, USER);
    assert_eq!(record.score, 0);
    assert_eq!(record.bump, 252);
    assert_eq!(ledger.lookup_reputation(USER), Ok(record));
}

#[test]
fn second_create_reputation_fails_already_exists() {
    let mut ledger = ReputationLedger::new();
    reputation_vault::initialize_reputation(&mut ledger, USER, 252).unwrap();
    assert_eq!(
        reputation_vault::initialize_reputation(&mut ledger, USER, 1),
        Err(VaultError::AlreadyExists)
    );
}

#[test]
fn lookup_reputation_of_unknown_user_is_not_found() {
    let ledger = ReputationLedger::new();
    assert_eq!(ledger.lookup_reputation(USER), Err(VaultError::NotFound));
}

#[test]
fn increase_by_non_administrator_is_unauthorized_and_leaves_score() {
    let vault = vault_record(100);
    let mut record = Reputation {
        user: USER,
        score: 40,
        bump: 252,
    };
    assert_eq!(
        increase_reputation(STRANGER, &vault, &mut record, 10),
        Err(VaultError::Unauthorized)
    );
    assert_eq!(record.score, 40);
}

#[test]
fn increase_by_administrator_is_exactly_additive() {
    let vault = vault_record(100);
    let mut record = Reputation {
        user: USER,
        score: 40,
        bump: 252,
    };
    assert_eq!(increase_reputation(ADMIN, &vault, &mut record, 110), Ok(()));
    assert_eq!(record.score, 150);
    assert_eq!(record.user, USER);
    assert_eq!(record.bump, 252);
}

#[test]
fn increase_past_maximum_fails_with_overflow_and_leaves_score() {
    let vault = vault_record(100);
    let mut record = Reputation {
        user: USER,
        score: u64::MAX - 1,
        bump: 252,
    };
    assert_eq!(
        increase_reputation(ADMIN, &vault, &mut record, 2),
        Err(VaultError::Overflow)
    );
    assert_eq!(record.score, u64::MAX - 1);
    assert_eq!(increase_reputation(ADMIN, &vault, &mut record, 1), Ok(()));
    assert_eq!(record.score, u64::MAX);
}

#[test]
fn ledger_increase_updates_the_stored_record() {
    let vault = vault_record(100);
    let mut ledger = ReputationLedger::new();
    reputation_vault::initialize_reputation(&mut ledger, USER, 252).unwrap();
    reputation_vault::initialize_reputation(&mut ledger, STRANGER, 253).unwrap();
    let updated = ledger
        .increase_reputation(ADMIN, &vault, USER, 150)
        .unwrap();
    assert_eq!(updated.score, 150);
    assert_eq!(ledger.lookup_reputation(USER), Ok(updated));
    assert_eq!(ledger.lookup_reputation(STRANGER).unwrap().score, 0);
}

#[test]
fn ledger_increase_by_non_administrator_is_unauthorized() {
    let vault = vault_record(100);
    let mut ledger = ReputationLedger::new();
    reputation_vault::initialize_reputation(&mut ledger, USER, 252).unwrap();
    assert_eq!(
        ledger.increase_reputation(STRANGER, &vault, USER, 5),
        Err(VaultError::Unauthorized)
    );
    assert_eq!(ledger.lookup_reputation(USER).unwrap().score, 0);
}

#[test]
fn ledger_increase_for_unknown_user_is_not_found() {
    let vault = vault_record(100);
    let mut ledger = ReputationLedger::new();
    assert_eq!(
        ledger.increase_reputation(ADMIN, &vault, USER, 5),
        Err(VaultError::NotFound)
    );
}
