use reputation_vault::errors::VaultError;
use reputation_vault::ledger::ReputationLedger;
use reputation_vault::registry::VaultRegistry;
use reputation_vault::state::Reputation;
use reputation_vault::{deposit, increase_reputation, initialize, initialize_reputation, withdraw};

const ADMIN: u64 = 11;
const USER: u64 = 22;

#[test]
fn withdraw_below_threshold_fails_and_moves_nothing() {
    let mut registry = VaultRegistry::new();
    let (vault, mut custody) = initialize(&mut registry, ADMIN, 100, 250, 251).unwrap();
    let mut wallet: u64 = 500;
    deposit(&mut custody, &mut wallet, 500).unwrap();
    let record = Reputation {
        user: USER,
        score: 99,
        bump: 252,
    };
    assert_eq!(
        withdraw(&vault, &record, USER, &mut custody, &mut wallet, 100),
        Err(VaultError::InsufficientReputation)
    );
    assert_eq!(custody.balance, 500);
    assert_eq!(wallet, 0);
}

#[test]
fn withdraw_at_threshold_moves_exactly_the_amount() {
    let mut registry = VaultRegistry::new();
    let (vault, mut custody) = initialize(&mut registry, ADMIN, 100, 250, 251).unwrap();
    let mut funder: u64 = 800;
    deposit(&mut custody, &mut funder, 800).unwrap();
    let record = Reputation {
        user: USER,
        score: 100,
        bump: 252,
    };
    let mut wallet: u64 = 7;
    assert_eq!(
        withdraw(&vault, &record, USER, &mut custody, &mut wallet, 300),
        Ok(())
    );
    assert_eq!(custody.balance, 500);
    assert_eq!(wallet, 307);
}

#[test]
fn withdraw_with_someone_elses_record_is_unauthorized() {
    let mut registry = VaultRegistry::new();
    let (vault, mut custody) = initialize(&mut registry, ADMIN, 0, 250, 251).unwrap();
    let mut funder: u64 = 100;
    deposit(&mut custody, &mut funder, 100).unwrap();
    let record = Reputation {
        user: ADMIN,
        score: 1000,
        bump: 252,
    };
    let mut wallet: u64 = 0;
    assert_eq!(
        withdraw(&vault, &record, USER, &mut custody, &mut wallet, 10),
        Err(VaultError::Unauthorized)
    );
    assert_eq!(custody.balance, 100);
    assert_eq!(wallet, 0);
}

#[test]
fn withdraw_more_than_the_pool_fails_and_moves_nothing() {
    let mut registry = VaultRegistry::new();
    let (vault, mut custody) = initialize(&mut registry, ADMIN, 0, 250, 251).unwrap();
    let mut funder: u64 = 100;
    deposit(&mut custody, &mut funder, 100).unwrap();
    let record = Reputation {
        user: USER,
        score: 0,
        bump: 252,
    };
    let mut wallet: u64 = 3;
    assert_eq!(
        withdraw(&vault, &record, USER, &mut custody, &mut wallet, 101),
        Err(VaultError::TransferFailed)
    );
    assert_eq!(custody.balance, 100);
    assert_eq!(wallet, 3);
}

#[test]
fn any_sufficiently_reputable_user_may_drain_the_shared_pool() {
    let mut registry = VaultRegistry::new();
    let (vault, mut custody) = initialize(&mut registry, ADMIN, 10, 250, 251).unwrap();
    let mut funder: u64 = 900;
    deposit(&mut custody, &mut funder, 900).unwrap();
    let record = Reputation {
        user: USER,
        score: 10,
        bump: 252,
    };
    let mut wallet: u64 = 0;
    assert_eq!(
        withdraw(&vault, &record, USER, &mut custody, &mut wallet, 900),
        Ok(())
    );
    assert_eq!(custody.balance, 0);
    assert_eq!(wallet, 900);
}

#[test]
fn scenario_reputation_gates_the_withdrawal() {
    let mut registry = VaultRegistry::new();
    let mut ledger = ReputationLedger::new();

    let (vault, mut custody) = initialize(&mut registry, ADMIN, 100, 250, 251).unwrap();
    let mut record = initialize_reputation(&mut ledger, USER, 252).unwrap();
    assert_eq!(record.score, 0);

    let mut wallet: u64 = 600;
    assert_eq!(deposit(&mut custody, &mut wallet, 500), Ok(()));
    assert_eq!(custody.balance, 500);
    assert_eq!(wallet, 100);

    assert_eq!(
        withdraw(&vault, &record, USER, &mut custody, &mut wallet, 500),
        Err(VaultError::InsufficientReputation)
    );
    assert_eq!(custody.balance, 500);

    assert_eq!(increase_reputation(ADMIN, &vault, &mut record, 150), Ok(()));
    assert_eq!(record.score, 150);

    assert_eq!(
        withdraw(&vault, &record, USER, &mut custody, &mut wallet, 500),
        Ok(())
    );
    assert_eq!(custody.balance, 0);
    assert_eq!(wallet, 600);
}
