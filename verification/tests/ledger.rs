use nep141_model::errors::TokenError;
use nep141_model::ledger::{measure_account_storage, Contract};

const OWNER_SUPPLY: u128 = 1_000_000_000_000_000;

#[test]
fn test_new() {
    let owner: String = near_sdk::test_utils::accounts(1).into();
    let contract = Contract::new(owner.clone(), OWNER_SUPPLY);
    assert_eq!(contract.ft_total_supply(), OWNER_SUPPLY);
    assert_eq!(contract.ft_balance_of(&owner), OWNER_SUPPLY);
}

#[test]
fn new_with_zero_supply_stores_no_entry() {
    let owner = String::from("alice");
    let contract = Contract::new(owner.clone(), 0);
    assert_eq!(contract.ft_total_supply(), 0);
    assert_eq!(contract.ft_balance_of(&owner), 0);
}

#[test]
fn deposit_increases_balance_and_supply() {
    let owner = String::from("alice");
    let bob = String::from("bob");
    let mut contract = Contract::new(owner.clone(), 100);
    assert_eq!(contract.internal_deposit(&bob, 40), Ok(()));
    assert_eq!(contract.ft_balance_of(&bob), 40);
    assert_eq!(contract.ft_balance_of(&owner), 100);
    assert_eq!(contract.ft_total_supply(), 140);
}

#[test]
fn deposit_overflow_fails_and_changes_nothing() {
    let owner = String::from("alice");
    let bob = String::from("bob");
    let mut contract = Contract::new(owner.clone(), 100);
    assert_eq!(
        contract.internal_deposit(&bob, u128::MAX),
        Err(TokenError::ArithmeticOverflow)
    );
    assert_eq!(contract.ft_balance_of(&bob), 0);
    assert_eq!(contract.ft_balance_of(&owner), 100);
    assert_eq!(contract.ft_total_supply(), 100);
}

#[test]
fn withdraw_decreases_balance_and_supply() {
    let owner = String::from("alice");
    let mut contract = Contract::new(owner.clone(), 100);
    assert_eq!(contract.internal_withdraw(&owner, 30), Ok(()));
    assert_eq!(contract.ft_balance_of(&owner), 70);
    assert_eq!(contract.ft_total_supply(), 70);
}

#[test]
fn withdraw_underflow_fails_and_changes_nothing() {
    let owner = String::from("alice");
    let mut contract = Contract::new(owner.clone(), 100);
    assert_eq!(
        contract.internal_withdraw(&owner, 101),
        Err(TokenError::InsufficientBalance)
    );
    assert_eq!(contract.ft_balance_of(&owner), 100);
    assert_eq!(contract.ft_total_supply(), 100);
}

#[test]
fn withdraw_to_zero_deletes_the_entry() {
    let owner = String::from("alice");
    let mut contract = Contract::new(owner.clone(), 100);
    assert_eq!(contract.internal_withdraw(&owner, 100), Ok(()));
    assert_eq!(contract.ft_balance_of(&owner), 0);
    assert_eq!(contract.ft_total_supply(), 0);
    assert_eq!(contract.accounts.len(), 0);
}

#[test]
fn conservation_across_a_sequence_of_operations() {
    let owner = String::from("alice");
    let bob = String::from("bob");
    let carol = String::from("carol");
    let mut contract = Contract::new(owner.clone(), 1000);
    let accounts = [owner.clone(), bob.clone(), carol.clone()];
    let check = |c: &Contract| {
        let sum: u128 = accounts.iter().map(|a| c.ft_balance_of(a)).sum();
        assert_eq!(sum, c.ft_total_supply());
    };
    check(&contract);
    assert_eq!(contract.internal_deposit(&bob, 250), Ok(()));
    check(&contract);
    assert_eq!(contract.internal_withdraw(&owner, 400), Ok(()));
    check(&contract);
    assert_eq!(contract.ft_transfer(&bob, &carol, 100, None), Ok(()));
    check(&contract);
    assert_eq!(contract.internal_withdraw(&carol, 100), Ok(()));
    check(&contract);
}

#[test]
fn mint_raises_owner_balance_and_supply() {
    let owner = String::from("alice");
    let mut contract = Contract::new(owner.clone(), 100);
    assert_eq!(contract.mint(25), Ok(()));
    assert_eq!(contract.ft_balance_of(&owner), 125);
    assert_eq!(contract.ft_total_supply(), 125);
    assert_eq!(contract.mint(u128::MAX), Err(TokenError::ArithmeticOverflow));
    assert_eq!(contract.ft_total_supply(), 125);
}

#[test]
fn get_owner_id_returns_the_owner() {
    let owner = String::from("alice");
    let contract = Contract::new(owner.clone(), 100);
    assert_eq!(contract.get_owner_id(), owner);
}

#[test]
fn storage_measurement_is_computed_once_and_never_changes() {
    let owner = String::from("alice");
    let bob = String::from("bob");
    let mut contract = Contract::new(owner.clone(), 100);
    let measured = contract.account_storage_usage;
    assert_eq!(measured, measure_account_storage());
    assert_eq!(measured, 80);
    assert_eq!(contract.internal_deposit(&bob, 40), Ok(()));
    assert_eq!(contract.account_storage_usage, measured);
    assert_eq!(contract.internal_withdraw(&owner, 100), Ok(()));
    assert_eq!(contract.account_storage_usage, measured);
    assert_eq!(contract.ft_transfer(&bob, &owner, 10, None), Ok(()));
    assert_eq!(contract.account_storage_usage, measured);
}
