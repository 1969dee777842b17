use node_runtime::ledger::{Account, Ledger, LedgerError, NegativeImbalance};

#[test]
fn new_ledger_is_empty() {
    let ledger = Ledger::new();
    assert_eq!(ledger.total_issuance(), 0);
    assert_eq!(ledger.unresolved(), 0);
    assert_eq!(ledger.free_balance(1), 0);
    assert_eq!(ledger.account_nonce(1), 0);
    assert_eq!(ledger.account(1), Account { nonce: 0, free: 0 });
}

#[test]
fn deposit_issues_currency() {
    let mut ledger = Ledger::new();
    assert_eq!(ledger.deposit_creating(1, 700), Ok(()));
    assert_eq!(ledger.deposit_creating(2, 300), Ok(()));
    assert_eq!(ledger.deposit_creating(1, 5), Ok(()));
    assert_eq!(ledger.free_balance(1), 705);
    assert_eq!(ledger.free_balance(2), 300);
    assert_eq!(ledger.total_issuance(), 1005);
    assert_eq!(ledger.unresolved(), 0);
}

#[test]
fn deposit_refuses_issuance_overflow() {
    let mut ledger = Ledger::new();
    assert_eq!(ledger.deposit_creating(1, u128::MAX - 1), Ok(()));
    assert_eq!(ledger.deposit_creating(2, 2), Err(LedgerError::IssuanceOverflow));
    assert_eq!(ledger.free_balance(2), 0);
    assert_eq!(ledger.total_issuance(), u128::MAX - 1);
    assert_eq!(ledger.deposit_creating(2, 1), Ok(()));
    assert_eq!(ledger.total_issuance(), u128::MAX);
}

#[test]
fn withdraw_moves_balance_into_imbalance() {
    let mut ledger = Ledger::new();
    ledger.deposit_creating(1, 100).unwrap();
    let token = ledger.withdraw(1, 40).unwrap();
    assert_eq!(token.peek(), 40);
    assert_eq!(ledger.free_balance(1), 60);
    assert_eq!(ledger.unresolved(), 40);
    assert_eq!(ledger.total_issuance(), 100);
    ledger.resolve_creating(9, token);
    assert_eq!(ledger.free_balance(9), 40);
    assert_eq!(ledger.unresolved(), 0);
    assert_eq!(ledger.total_issuance(), 100);
}

#[test]
fn withdraw_refuses_more_than_the_balance() {
    let mut ledger = Ledger::new();
    ledger.deposit_creating(1, 100).unwrap();
    let refused = ledger.withdraw(1, 101);
    assert!(matches!(refused, Err(LedgerError::InsufficientBalance)));
    assert_eq!(ledger.free_balance(1), 100);
    assert_eq!(ledger.unresolved(), 0);
    let refused = ledger.withdraw(2, 1);
    assert!(matches!(refused, Err(LedgerError::InsufficientBalance)));
    let whole = ledger.withdraw(1, 100).unwrap();
    assert_eq!(whole.peek(), 100);
    assert_eq!(ledger.free_balance(1), 0);
}

#[test]
fn burn_shrinks_the_issuance() {
    let mut ledger = Ledger::new();
    ledger.deposit_creating(1, 100).unwrap();
    let token = ledger.withdraw(1, 30).unwrap();
    ledger.burn(token);
    assert_eq!(ledger.total_issuance(), 70);
    assert_eq!(ledger.unresolved(), 0);
    assert_eq!(ledger.free_balance(1), 70);
}

#[test]
fn nonce_advances_by_one() {
    let mut ledger = Ledger::new();
    ledger.deposit_creating(1, 100).unwrap();
    ledger.inc_account_nonce(1);
    ledger.inc_account_nonce(1);
    ledger.inc_account_nonce(2);
    assert_eq!(ledger.account_nonce(1), 2);
    assert_eq!(ledger.account_nonce(2), 1);
    assert_eq!(ledger.free_balance(1), 100);
    assert_eq!(ledger.free_balance(2), 0);
    assert_eq!(ledger.total_issuance(), 100);
}

#[test]
fn imbalance_splits_without_loss() {
    let mut ledger = Ledger::new();
    ledger.deposit_creating(1, 100).unwrap();
    let token = ledger.withdraw(1, 10).unwrap();
    let (first, second) = token.split(7);
    assert_eq!(first.peek(), 7);
    assert_eq!(second.peek(), 3);
    let (all, nothing) = second.split(50);
    assert_eq!(all.peek(), 3);
    assert_eq!(nothing.peek(), 0);
    assert_eq!(NegativeImbalance::zero().peek(), 0);
    ledger.resolve_creating(2, first);
    ledger.resolve_creating(3, all);
    ledger.resolve_creating(3, nothing);
    assert_eq!(ledger.free_balance(2), 7);
    assert_eq!(ledger.free_balance(3), 3);
    assert_eq!(ledger.unresolved(), 0);
}

#[test]
fn set_account_loads_a_record() {
    let mut ledger = Ledger::new();
    assert_eq!(ledger.set_account(1, Account { nonce: 5, free: 900 }), Ok(()));
    assert_eq!(ledger.account(1), Account { nonce: 5, free: 900 });
    assert_eq!(ledger.total_issuance(), 900);
    assert_eq!(ledger.set_account(1, Account { nonce: 6, free: 100 }), Ok(()));
    assert_eq!(ledger.account_nonce(1), 6);
    assert_eq!(ledger.total_issuance(), 100);
    assert_eq!(
        ledger.set_account(2, Account { nonce: 0, free: u128::MAX }),
        Err(LedgerError::IssuanceOverflow)
    );
    assert_eq!(ledger.account(2), Account { nonce: 0, free: 0 });
    assert_eq!(ledger.set_account(2, Account { nonce: 0, free: u128::MAX - 100 }), Ok(()));
    assert_eq!(ledger.total_issuance(), u128::MAX);
}

#[test]
fn snapshot_is_independent_of_the_ledger() {
    let mut ledger = Ledger::new();
    ledger.deposit_creating(1, 100).unwrap();
    let copy = ledger.snapshot();
    let token = ledger.withdraw(1, 60).unwrap();
    ledger.burn(token);
    assert_eq!(ledger.free_balance(1), 40);
    assert_eq!(copy.free_balance(1), 100);
    assert_eq!(copy.total_issuance(), 100);
    assert_eq!(copy.unresolved(), 0);
}
