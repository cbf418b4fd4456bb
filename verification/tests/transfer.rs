use nep141_model::errors::TokenError;
use nep141_model::ledger::Contract;

const OWNER_SUPPLY: u128 = 1_000_000_000_000_000;

#[test]
fn test_transfer() {
    let owner: String = near_sdk::test_utils::accounts(2).into();
    let receiver: String = near_sdk::test_utils::accounts(1).into();
    let mut contract = Contract::new(owner.clone(), OWNER_SUPPLY);
    let transfer_amount = OWNER_SUPPLY / 3;
    assert_eq!(
        contract.ft_transfer(&owner, &receiver, transfer_amount, None),
        Ok(())
    );
    assert_eq!(
        contract.ft_balance_of(&owner),
        OWNER_SUPPLY - transfer_amount
    );
    assert_eq!(contract.ft_balance_of(&receiver), transfer_amount);
}

#[test]
fn transfer_to_the_same_account_is_rejected() {
    let alice = String::from("alice");
    let mut contract = Contract::new(alice.clone(), 100);
    assert_eq!(
        contract.ft_transfer(&alice, &alice, 5, None),
        Err(TokenError::SameAccount)
    );
    assert_eq!(contract.ft_balance_of(&alice), 100);
}

#[test]
fn transfer_of_zero_is_rejected() {
    let alice = String::from("alice");
    let bob = String::from("bob");
    let mut contract = Contract::new(alice.clone(), 100);
    assert_eq!(
        contract.ft_transfer(&alice, &bob, 0, None),
        Err(TokenError::ZeroAmount)
    );
    assert_eq!(contract.ft_balance_of(&alice), 100);
    assert_eq!(contract.ft_balance_of(&bob), 0);
}

#[test]
fn failed_transfer_leaves_both_balances_unchanged() {
    let alice = String::from("alice");
    let bob = String::from("bob");
    let mut contract = Contract::new(alice.clone(), 100);
    assert_eq!(
        contract.ft_transfer(&alice, &bob, 101, None),
        Err(TokenError::InsufficientBalance)
    );
    assert_eq!(contract.ft_balance_of(&alice), 100);
    assert_eq!(contract.ft_balance_of(&bob), 0);
    assert_eq!(contract.ft_total_supply(), 100);
}

#[test]
fn successful_transfer_moves_exactly_the_amount() {
    let alice = String::from("alice");
    let bob = String::from("bob");
    let mut contract = Contract::new(alice.clone(), 100);
    assert_eq!(contract.ft_transfer(&alice, &bob, 40, Some(String::from("rent"))), Ok(()));
    assert_eq!(contract.ft_balance_of(&alice), 60);
    assert_eq!(contract.ft_balance_of(&bob), 40);
    assert_eq!(contract.ft_total_supply(), 100);
}

#[test]
fn transfer_call_returns_the_pending_notification() {
    let alice = String::from("alice");
    let bob = String::from("bob");
    let mut contract = Contract::new(alice.clone(), 100);
    let pending = contract
        .ft_transfer_call(&alice, &bob, 40, None, String::from("swap"))
        .unwrap();
    assert_eq!(pending.sender_id, alice);
    assert_eq!(pending.receiver_id, bob);
    assert_eq!(pending.amount, 40);
    assert_eq!(pending.msg, "swap");
    assert_eq!(contract.ft_balance_of(&alice), 60);
    assert_eq!(contract.ft_balance_of(&bob), 40);
}

#[test]
fn failed_transfer_call_owes_no_notification() {
    let alice = String::from("alice");
    let bob = String::from("bob");
    let mut contract = Contract::new(alice.clone(), 100);
    let r = contract.ft_transfer_call(&alice, &bob, 101, None, String::from("swap"));
    assert!(matches!(r, Err(TokenError::InsufficientBalance)));
    assert_eq!(contract.ft_balance_of(&alice), 100);
    assert_eq!(contract.ft_balance_of(&bob), 0);
}
