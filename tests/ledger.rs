use reserve_ledger::ledger::{Ledger, StoreError};
use reserve_ledger::transaction::{
    InvalidReason, MetaEntry, TransactionError, TransactionStatus, TransactionType,
};
use reserve_ledger::wallet::{WalletError, WalletStatus};

const A: u128 = 1;
const B: u128 = 2;
const C: u128 = 3;
const USER: u128 = 77;

fn usd() -> String {
    "USD".to_string()
}

/// A ledger with wallets A and B funded by deposits (tx ids 1000 and 1001).
fn funded(a: i64, b: i64) -> Ledger {
    let mut l = Ledger::new();
    l.open_wallet(A, USER, usd(), 10).unwrap();
    l.open_wallet(B, USER, usd(), 11).unwrap();
    if a > 0 {
        l.create_transaction(1000, TransactionType::Deposit, a, usd(), None, Some(A), None, Vec::new(), 12)
            .unwrap();
    }
    if b > 0 {
        l.create_transaction(1001, TransactionType::Deposit, b, usd(), None, Some(B), None, Vec::new(), 13)
            .unwrap();
    }
    l
}

#[test]
fn withdrawal_beyond_balance_is_refused() {
    let mut l = funded(10000, 0);
    let before = l.transactions.len();
    let r = l.create_transaction(1, TransactionType::Withdrawal, 15000, usd(), Some(A), None, None, Vec::new(), 20);
    let e = r.unwrap_err();
    assert_eq!(
        e,
        TransactionError::WalletError(WalletError::InsufficientFunds { required: 15000, available: 10000 })
    );
    assert_eq!(l.get_wallet_balance(A), Some(10000));
    assert_eq!(l.transactions.len(), before);
    assert_eq!(e.message(), "Wallet error: Insufficient funds: required 150.00, available 100.00");
}

#[test]
fn transfer_moves_amount_between_wallets() {
    let mut l = funded(10000, 1000);
    let before = l.transactions.len();
    let tx = l
        .create_transaction(5, TransactionType::Transfer, 4000, usd(), Some(A), Some(B), Some("ref-1".to_string()), Vec::new(), 30)
        .unwrap();
    assert_eq!(l.get_wallet_balance(A), Some(6000));
    assert_eq!(l.get_wallet_balance(B), Some(5000));
    assert_eq!(l.transactions.len(), before + 1);
    assert_eq!(tx.status, TransactionStatus::Completed);
    assert_eq!(tx.amount, 4000);
    assert_eq!(tx.debit_wallet_id, Some(A));
    assert_eq!(tx.credit_wallet_id, Some(B));
    assert_eq!(tx.reference_id, Some("ref-1".to_string()));
    assert_eq!(l.transactions[before].status, TransactionStatus::Completed);
    assert_eq!(l.transactions[before].id, 5);
}

#[test]
fn transfer_conserves_total_balance() {
    let mut l = funded(2500, 700);
    l.create_transaction(5, TransactionType::Transfer, 2500, usd(), Some(A), Some(B), None, Vec::new(), 30)
        .unwrap();
    assert_eq!(l.get_wallet_balance(A), Some(0));
    assert_eq!(l.get_wallet_balance(B), Some(3200));
    assert_eq!(l.active_totals().0, 3200);
}

#[test]
fn failed_credit_side_rolls_back_debit() {
    let mut l = funded(10000, 1000);
    l.freeze_wallet(B, 25).unwrap();
    let before = l.transactions.len();
    let r = l.create_transaction(5, TransactionType::Transfer, 4000, usd(), Some(A), Some(B), None, Vec::new(), 30);
    assert_eq!(r.unwrap_err(), TransactionError::WalletError(WalletError::InactiveWallet));
    assert_eq!(l.get_wallet_balance(A), Some(10000));
    assert_eq!(l.get_wallet_balance(B), Some(1000));
    assert_eq!(l.transactions.len(), before);
}

#[test]
fn missing_credit_wallet_rolls_back_debit() {
    let mut l = funded(10000, 0);
    let r = l.create_transaction(5, TransactionType::Transfer, 100, usd(), Some(A), Some(C), None, Vec::new(), 30);
    assert_eq!(
        r.unwrap_err(),
        TransactionError::InvalidTransaction(InvalidReason::CreditWalletNotFound)
    );
    assert_eq!(l.get_wallet_balance(A), Some(10000));
}

#[test]
fn reversal_restores_balances() {
    let mut l = funded(10000, 1000);
    let before = l.transactions.len();
    let original: u128 = 0xa1a2a3a4b1b2c1c2d1d2d3d4d5d6d7d8;
    let meta = vec![MetaEntry { key: "channel".to_string(), value: "app".to_string() }];
    l.create_transaction(original, TransactionType::Transfer, 4000, usd(), Some(A), Some(B), None, meta, 30)
        .unwrap();
    let rev = l.reverse_transaction(original, 9, Some("customer request".to_string()), 40).unwrap();
    assert_eq!(l.get_wallet_balance(A), Some(10000));
    assert_eq!(l.get_wallet_balance(B), Some(1000));
    assert_eq!(l.transactions.len(), before + 2);
    assert_eq!(l.transactions[before].status, TransactionStatus::Reversed);
    assert_eq!(l.transactions[before + 1].status, TransactionStatus::Completed);
    assert_eq!(rev.transaction_type, TransactionType::Refund);
    assert_eq!(rev.debit_wallet_id, Some(B));
    assert_eq!(rev.credit_wallet_id, Some(A));
    assert_eq!(rev.amount, 4000);
    assert_eq!(
        rev.reference_id,
        Some("reversal_a1a2a3a4-b1b2-c1c2-d1d2-d3d4d5d6d7d8".to_string())
    );
    assert_eq!(rev.metadata.len(), 2);
    assert_eq!(rev.metadata[0].key, "channel");
    assert_eq!(rev.metadata[1].key, "reverse_reason");
    assert_eq!(rev.metadata[1].value, "customer request");
}

#[test]
fn reversal_reason_replaces_existing_key() {
    let mut l = funded(10000, 0);
    let meta = vec![MetaEntry { key: "reverse_reason".to_string(), value: "old".to_string() }];
    l.create_transaction(5, TransactionType::Transfer, 100, usd(), Some(A), Some(B), None, meta, 30)
        .unwrap();
    let rev = l.reverse_transaction(5, 6, Some("new".to_string()), 40).unwrap();
    assert_eq!(rev.metadata.len(), 1);
    assert_eq!(rev.metadata[0].value, "new");
    let rev2_meta_len = {
        let mut l2 = funded(10000, 0);
        l2.create_transaction(5, TransactionType::Transfer, 100, usd(), Some(A), Some(B), None, Vec::new(), 30)
            .unwrap();
        l2.reverse_transaction(5, 6, None, 40).unwrap().metadata.len()
    };
    assert_eq!(rev2_meta_len, 0);
}

#[test]
fn reversal_only_of_completed_transactions() {
    let mut l = funded(10000, 0);
    l.create_transaction(5, TransactionType::Transfer, 100, usd(), Some(A), Some(B), None, Vec::new(), 30)
        .unwrap();
    l.reverse_transaction(5, 6, None, 40).unwrap();
    assert_eq!(l.reverse_transaction(5, 7, None, 41).unwrap_err(), TransactionError::InvalidState);
    assert_eq!(l.reverse_transaction(404, 8, None, 41).unwrap_err(), TransactionError::NotFound);
    assert_eq!(l.get_wallet_balance(A), Some(10000));
}

#[test]
fn reversal_refused_when_wallet_spent_funds() {
    let mut l = funded(10000, 0);
    l.create_transaction(5, TransactionType::Transfer, 4000, usd(), Some(A), Some(B), None, Vec::new(), 30)
        .unwrap();
    l.create_transaction(6, TransactionType::Withdrawal, 4000, usd(), Some(B), None, None, Vec::new(), 31)
        .unwrap();
    let before = l.transactions.len();
    let r = l.reverse_transaction(5, 7, None, 40);
    assert_eq!(
        r.unwrap_err(),
        TransactionError::WalletError(WalletError::InsufficientFunds { required: 4000, available: 0 })
    );
    assert_eq!(l.transactions.len(), before);
    assert_eq!(l.transactions[1].status, TransactionStatus::Completed);
}

#[test]
fn request_validation_errors() {
    let mut l = funded(10000, 0);
    assert_eq!(
        l.create_transaction(5, TransactionType::Fee, 100, usd(), None, None, None, Vec::new(), 30).unwrap_err(),
        TransactionError::InvalidTransaction(InvalidReason::NoWallet)
    );
    assert_eq!(
        l.create_transaction(5, TransactionType::Transfer, 100, usd(), Some(A), Some(A), None, Vec::new(), 30).unwrap_err(),
        TransactionError::InvalidTransaction(InvalidReason::SameWallet)
    );
    assert_eq!(
        l.create_transaction(5, TransactionType::Transfer, 0, usd(), Some(A), Some(B), None, Vec::new(), 30).unwrap_err(),
        TransactionError::InvalidAmount
    );
    assert_eq!(
        l.create_transaction(5, TransactionType::Transfer, -3, usd(), Some(A), Some(B), None, Vec::new(), 30).unwrap_err(),
        TransactionError::InvalidAmount
    );
    assert_eq!(
        l.create_transaction(1000, TransactionType::Deposit, 100, usd(), None, Some(A), None, Vec::new(), 30).unwrap_err(),
        TransactionError::DuplicateId
    );
    assert_eq!(
        l.create_transaction(5, TransactionType::Withdrawal, 100, usd(), Some(C), None, None, Vec::new(), 30).unwrap_err(),
        TransactionError::InvalidTransaction(InvalidReason::DebitWalletNotFound)
    );
    assert_eq!(l.get_wallet_balance(A), Some(10000));
}

#[test]
fn credit_overflow_is_refused() {
    let mut l = funded(i64::MAX, 0);
    let r = l.create_transaction(5, TransactionType::Deposit, 1, usd(), None, Some(A), None, Vec::new(), 30);
    assert_eq!(r.unwrap_err(), TransactionError::WalletError(WalletError::InvalidAmount));
    assert_eq!(l.get_wallet_balance(A), Some(i64::MAX));
}

#[test]
fn withdrawing_whole_balance_leaves_zero() {
    let mut l = funded(500, 0);
    l.create_transaction(5, TransactionType::Withdrawal, 500, usd(), Some(A), None, None, Vec::new(), 30)
        .unwrap();
    assert_eq!(l.get_wallet_balance(A), Some(0));
    let r = l.create_transaction(6, TransactionType::Withdrawal, 1, usd(), Some(A), None, None, Vec::new(), 31);
    assert_eq!(
        r.unwrap_err(),
        TransactionError::WalletError(WalletError::InsufficientFunds { required: 1, available: 0 })
    );
    for w in l.wallets.iter() {
        assert!(w.balance >= 0);
    }
}

#[test]
fn freeze_only_active_wallets() {
    let mut l = funded(0, 0);
    assert_eq!(l.freeze_wallet(A, 20), Ok(()));
    assert_eq!(l.wallets[0].status, WalletStatus::Frozen);
    assert_eq!(l.freeze_wallet(A, 21), Err(WalletError::InactiveWallet));
    assert_eq!(l.freeze_wallet(C, 21), Err(WalletError::NotFound));
    let r = l.create_transaction(5, TransactionType::Deposit, 100, usd(), None, Some(A), None, Vec::new(), 30);
    assert_eq!(r.unwrap_err(), TransactionError::WalletError(WalletError::InactiveWallet));
}

#[test]
fn open_wallet_refuses_duplicate_identity() {
    let mut l = funded(0, 0);
    assert_eq!(l.open_wallet(A, USER, usd(), 1), Err(StoreError::DuplicateId));
    assert_eq!(l.wallets.len(), 2);
    assert_eq!(l.get_wallet_balance(C), None);
}

#[test]
fn status_updates_follow_state_machine() {
    let mut l = funded(1000, 0);
    assert_eq!(l.update_transaction_status(1000, TransactionStatus::Failed, 40), Ok(()));
    assert_eq!(l.transactions[0].status, TransactionStatus::Failed);
    assert_eq!(
        l.update_transaction_status(1000, TransactionStatus::Completed, 41),
        Err(TransactionError::InvalidState)
    );
    assert_eq!(
        l.update_transaction_status(404, TransactionStatus::Failed, 41),
        Err(TransactionError::NotFound)
    );
    assert!(TransactionStatus::Pending.can_transition_to(TransactionStatus::Processing));
    assert!(!TransactionStatus::Reversed.can_transition_to(TransactionStatus::Completed));
    assert!(!TransactionStatus::Failed.can_transition_to(TransactionStatus::Reversed));
}

#[test]
fn error_messages() {
    assert_eq!(
        TransactionError::InvalidTransaction(InvalidReason::SameWallet).message(),
        "Invalid transaction: debit and credit wallets cannot be the same"
    );
    assert_eq!(TransactionError::NotFound.message(), "Transaction not found");
    assert_eq!(WalletError::InactiveWallet.message(), "Wallet is not active");
    assert_eq!(
        WalletError::InsufficientFunds { required: 5, available: 123456 }.message(),
        "Insufficient funds: required 0.05, available 1234.56"
    );
}

#[test]
fn wallets_listed_by_owner() {
    let mut l = Ledger::new();
    l.open_wallet(A, USER, usd(), 1).unwrap();
    l.open_wallet(B, 5, "EUR".to_string(), 2).unwrap();
    l.open_wallet(C, USER, "EUR".to_string(), 3).unwrap();
    assert_eq!(l.wallets_of_user(USER), vec![A, C]);
    assert_eq!(l.wallets_of_user(6), Vec::<u128>::new());
}
