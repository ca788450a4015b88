use erc20::ledger::{Balance, Error, Event, Ledger};

const A: u64 = 1;
const B: u64 = 2;
const C: u64 = 3;

fn initialized(supply: Balance) -> Ledger {
    let mut l = Ledger::new(supply, b"Token".to_vec(), b"TKN".to_vec());
    assert_eq!(l.init(A), Ok(()));
    l
}

#[test]
fn new_ledger_is_uninitialized() {
    let l = Ledger::new(1000, b"Token".to_vec(), b"TKN".to_vec());
    assert!(!l.is_initialized());
    assert_eq!(l.total_supply(), 1000);
    assert_eq!(l.owner(), 0);
    assert_eq!(*l.name(), b"Token".to_vec());
    assert_eq!(*l.ticker(), b"TKN".to_vec());
    assert_eq!(l.balance_of(A), 0);
    assert_eq!(l.allowance(A, B), 0);
    assert!(l.events().is_empty());
}

#[test]
fn init_mints_supply_to_caller() {
    let l = initialized(1000);
    assert_eq!(l.balance_of(A), 1000);
    assert!(l.is_initialized());
    assert_eq!(l.owner(), A);
    assert!(l.events().is_empty());
}

#[test]
fn second_init_is_rejected_and_changes_nothing() {
    let mut l = initialized(1000);
    assert_eq!(l.transfer(A, B, 10), Ok(()));
    assert_eq!(l.init(B), Err(Error::AlreadyInitialized));
    assert_eq!(l.owner(), A);
    assert_eq!(l.balance_of(A), 990);
    assert_eq!(l.balance_of(B), 10);
    assert_eq!(l.events().len(), 1);
}

#[test]
fn transfer_scenario() {
    let mut l = initialized(1000);
    assert_eq!(l.transfer(A, B, 400), Ok(()));
    assert_eq!(l.balance_of(A), 600);
    assert_eq!(l.balance_of(B), 400);
    assert_eq!(*l.events(), vec![Event::Transfer(A, B, 400)]);
}

#[test]
fn transfer_of_whole_balance_is_rejected() {
    let mut l = initialized(1000);
    assert_eq!(l.transfer(A, B, 400), Ok(()));
    assert_eq!(l.transfer(A, B, 600), Err(Error::InsufficientBalance));
    assert_eq!(l.balance_of(A), 600);
    assert_eq!(l.balance_of(B), 400);
    assert_eq!(l.events().len(), 1);
}

#[test]
fn transfer_more_than_balance_is_rejected() {
    let mut l = initialized(1000);
    assert_eq!(l.transfer(A, B, 5000), Err(Error::InsufficientBalance));
    assert_eq!(l.balance_of(A), 1000);
}

#[test]
fn transfer_from_account_without_entry_is_rejected() {
    let mut l = initialized(1000);
    assert_eq!(l.transfer(B, C, 0), Err(Error::NoSuchAccount));
    assert_eq!(l.balance_of(C), 0);
    assert!(l.events().is_empty());
}

#[test]
fn operations_before_init_are_rejected() {
    let mut l = Ledger::new(1000, Vec::new(), Vec::new());
    assert_eq!(l.transfer(A, B, 1), Err(Error::NoSuchAccount));
    assert_eq!(l.approve(A, B, 1), Err(Error::NoSuchAccount));
    assert_eq!(l.transfer_from(A, B, 1), Err(Error::NoAllowance));
    assert!(!l.is_initialized());
    assert!(l.events().is_empty());
}

#[test]
fn transfer_to_self_keeps_balance() {
    let mut l = initialized(1000);
    assert_eq!(l.transfer(A, A, 300), Ok(()));
    assert_eq!(l.balance_of(A), 1000);
    assert_eq!(*l.events(), vec![Event::Transfer(A, A, 300)]);
}

#[test]
fn transfers_conserve_total() {
    let mut l = initialized(1000);
    assert_eq!(l.transfer(A, B, 400), Ok(()));
    assert_eq!(l.transfer(B, C, 150), Ok(()));
    assert_eq!(l.transfer(A, C, 1), Ok(()));
    assert_eq!(l.balance_of(A), 599);
    assert_eq!(l.balance_of(B), 250);
    assert_eq!(l.balance_of(C), 151);
    assert_eq!(l.balance_of(A) + l.balance_of(B) + l.balance_of(C), 1000);
}

#[test]
fn transfer_with_largest_supply() {
    let mut l = initialized(u64::MAX);
    assert_eq!(l.transfer(A, B, u64::MAX - 1), Ok(()));
    assert_eq!(l.balance_of(A), 1);
    assert_eq!(l.balance_of(B), u64::MAX - 1);
}

#[test]
fn approve_is_additive() {
    let mut l = initialized(1000);
    assert_eq!(l.approve(A, B, 5), Ok(()));
    assert_eq!(l.approve(A, B, 3), Ok(()));
    assert_eq!(l.allowance(A, B), 8);
    assert_eq!(
        *l.events(),
        vec![Event::Approval(A, B, 5), Event::Approval(A, B, 3)]
    );
}

#[test]
fn approve_without_balance_entry_is_rejected() {
    let mut l = initialized(1000);
    assert_eq!(l.approve(B, C, 5), Err(Error::NoSuchAccount));
    assert_eq!(l.allowance(B, C), 0);
    assert!(l.events().is_empty());
}

#[test]
fn approve_does_not_move_balances() {
    let mut l = initialized(1000);
    assert_eq!(l.approve(A, C, 2000), Ok(()));
    assert_eq!(l.balance_of(A), 1000);
    assert_eq!(l.balance_of(C), 0);
    assert_eq!(l.allowance(A, C), 2000);
}

#[test]
fn transfer_from_scenario() {
    let mut l = initialized(1000);
    assert_eq!(l.approve(A, C, 100), Ok(()));
    let before = l.balance_of(C);
    assert_eq!(l.transfer_from(A, C, 50), Ok(()));
    assert_eq!(l.allowance(A, C), 50);
    assert_eq!(l.balance_of(C), before + 50);
    assert_eq!(l.balance_of(A), 950);
    assert_eq!(
        *l.events(),
        vec![
            Event::Approval(A, C, 100),
            Event::Approval(A, C, 50),
            Event::Transfer(A, C, 50),
        ]
    );
}

#[test]
fn transfer_from_consumes_exactly_amount() {
    let mut l = initialized(1000);
    assert_eq!(l.approve(A, B, 70), Ok(()));
    let before = l.allowance(A, B);
    assert_eq!(l.transfer_from(A, B, 70), Ok(()));
    assert_eq!(before, l.allowance(A, B) + 70);
    assert_eq!(l.allowance(A, B), 0);
}

#[test]
fn transfer_from_over_allowance_is_rejected() {
    let mut l = initialized(1000);
    assert_eq!(l.approve(A, B, 10), Ok(()));
    assert_eq!(l.transfer_from(A, B, 11), Err(Error::InsufficientAllowance));
    assert_eq!(l.allowance(A, B), 10);
    assert_eq!(l.balance_of(A), 1000);
    assert_eq!(l.balance_of(B), 0);
    assert_eq!(l.events().len(), 1);
}

#[test]
fn transfer_from_without_allowance_is_rejected() {
    let mut l = initialized(1000);
    assert_eq!(l.transfer_from(A, B, 1), Err(Error::NoAllowance));
    assert_eq!(l.balance_of(A), 1000);
}

#[test]
fn transfer_from_uses_destination_indexed_allowance() {
    let mut l = initialized(1000);
    assert_eq!(l.approve(A, C, 100), Ok(()));
    assert_eq!(l.transfer_from(A, B, 10), Err(Error::NoAllowance));
    assert_eq!(l.allowance(A, C), 100);
}

#[test]
fn transfer_from_with_short_balance_has_no_partial_effect() {
    let mut l = initialized(1000);
    assert_eq!(l.transfer(A, B, 100), Ok(()));
    assert_eq!(l.approve(B, C, 500), Ok(()));
    assert_eq!(l.transfer_from(B, C, 100), Err(Error::InsufficientBalance));
    assert_eq!(l.allowance(B, C), 500);
    assert_eq!(l.balance_of(B), 100);
    assert_eq!(l.balance_of(C), 0);
    assert_eq!(l.events().len(), 2);
}

