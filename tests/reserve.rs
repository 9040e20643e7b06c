use reserve_ledger::ledger::Ledger;
use reserve_ledger::money::Ratio;
use reserve_ledger::notification::{AlertSeverity, NotificationService, ALERT_CAPACITY};
use reserve_ledger::reconciliation::{
    alert_for, classify, ReconciliationError, ReconciliationService, ReconciliationStatus,
};
use reserve_ledger::reserve::{ReserveError, ReserveOperationType, ReserveStatus, ReserveTransactionStatus};
use reserve_ledger::transaction::TransactionType;

const W: u128 = 1;
const R1: u128 = 50;
const R2: u128 = 51;
/// 2024-01-15 as days after 1970-01-01.
const DAY: i32 = 19737;

fn usd() -> String {
    "USD".to_string()
}

/// Wallet total `wallet` and one reserve account (R1) holding `reserve`.
fn ledger_with(wallet: i64, reserve: i64) -> Ledger {
    let mut l = Ledger::new();
    l.open_wallet(W, 7, usd(), 1).unwrap();
    if wallet > 0 {
        l.create_transaction(100, TransactionType::Deposit, wallet, usd(), None, Some(W), None, Vec::new(), 2)
            .unwrap();
    }
    l.open_reserve(R1, "First Bank".to_string(), "001".to_string(), usd(), 3).unwrap();
    if reserve > 0 {
        l.record_reserve_operation(200, R1, reserve, ReserveOperationType::BankDeposit, None, None, Vec::new(), 4)
            .unwrap();
    }
    l
}

fn service() -> ReconciliationService {
    ReconciliationService::new(Ratio::one(), Ratio::threshold(105, 100).unwrap())
}

#[test]
fn ratio_below_one_is_refused_and_cycle_corrects() {
    let mut l = ledger_with(100000, 90000);
    let ratio = match l.check_reserve_ratio() {
        Err(ReserveError::ReserveRatioError(r)) => r,
        other => panic!("unexpected {:?}", other),
    };
    assert_eq!(ratio.scaled_down(4), 9000);
    assert_eq!(ratio.text(), "0.9000");

    let mut svc = service();
    let entries = l.reserve_transactions.len();
    let r = svc.trigger_reconciliation(&mut l, 300, 10, DAY);
    assert_eq!(r.unwrap_err(), ReconciliationError::ReserveRatioError(ratio));
    assert_eq!(l.reserve_transactions.len(), entries + 1);
    let fix = &l.reserve_transactions[entries];
    assert_eq!(fix.amount, 10000);
    assert_eq!(fix.operation_type, ReserveOperationType::Reconciliation);
    assert_eq!(fix.status, ReserveTransactionStatus::Completed);
    assert_eq!(fix.reserve_account_id, R1);
    assert_eq!(fix.reference_id, Some("reconciliation_2024-01-15".to_string()));
    assert_eq!(fix.metadata[0].value, "1000.00");
    assert_eq!(fix.metadata[1].value, "900.00");
    let report = l.reports[l.reports.len() - 1];
    assert_eq!(report.status, ReconciliationStatus::Error);
    assert_eq!(report.wallet_total, 100000);
    assert_eq!(report.reserve_total, 90000);
    assert_eq!(report.discrepancy, Some(-10000));
    assert_eq!(l.reserves[0].balance, 100000);
}

#[test]
fn second_cycle_finds_nothing_to_correct() {
    let mut l = ledger_with(100000, 90000);
    let mut svc = service();
    let _ = svc.trigger_reconciliation(&mut l, 300, 10, DAY);
    let entries = l.reserve_transactions.len();
    let second = svc.trigger_reconciliation(&mut l, 301, 11, DAY + 1).unwrap();
    assert_eq!(second.discrepancy, None);
    assert_eq!(l.reserve_transactions.len(), entries);
    assert_eq!(l.reports.len(), 2);
    assert_eq!(second.status, ReconciliationStatus::Warning);
}

#[test]
fn healthy_cycle_reports_success() {
    let mut l = ledger_with(100000, 110000);
    let svc = service();
    let report = svc.perform_reconciliation(&mut l, 300, 10, DAY).unwrap();
    assert_eq!(report.status, ReconciliationStatus::Success);
    assert_eq!(report.discrepancy, Some(10000));
    assert_eq!(l.reserves[0].balance, 100000);
    assert_eq!(l.check_reserve_ratio().unwrap(), Ratio { numerator: 100000, denominator: 100000 });
}

#[test]
fn empty_ledger_ratio_is_one() {
    let mut l = Ledger::new();
    assert_eq!(l.check_reserve_ratio(), Ok(Ratio::one()));
    let svc = service();
    let report = svc.perform_reconciliation(&mut l, 300, 10, DAY).unwrap();
    assert_eq!(report.ratio, Ratio::one());
    assert_eq!(report.discrepancy, None);
    assert_eq!(report.status, ReconciliationStatus::Warning);
    assert_eq!(l.reports.len(), 1);
}

#[test]
fn correction_goes_to_earliest_active_reserve() {
    let mut l = ledger_with(5000, 0);
    l.open_reserve(R2, "Second Bank".to_string(), "002".to_string(), usd(), 0).unwrap();
    let svc = service();
    let r = svc.perform_reconciliation(&mut l, 300, 10, DAY);
    assert!(matches!(r, Err(ReconciliationError::ReserveRatioError(_))));
    assert_eq!(l.reserves[0].balance, 0);
    assert_eq!(l.reserves[1].balance, 5000);
}

#[test]
fn correction_without_active_reserve_fails_but_reports() {
    let mut l = ledger_with(5000, 0);
    l.reserves[0].status = ReserveStatus::Suspended;
    let svc = service();
    let r = svc.perform_reconciliation(&mut l, 300, 10, DAY);
    assert_eq!(r.unwrap_err(), ReconciliationError::NoActiveReserve);
    assert_eq!(l.reports.len(), 1);
    assert!(l.reserve_transactions.is_empty());
}

#[test]
fn refused_correction_keeps_discrepancy() {
    // Two reserve accounts total 1000.00 against 500.00 of wallets; the earliest
    // holds only 100.00, so the -500.00 correction is refused.
    let mut l = ledger_with(50000, 10000);
    l.open_reserve(R2, "Second Bank".to_string(), "002".to_string(), usd(), 5).unwrap();
    l.record_reserve_operation(201, R2, 90000, ReserveOperationType::BankDeposit, None, None, Vec::new(), 6)
        .unwrap();
    let svc = service();
    let r = svc.perform_reconciliation(&mut l, 300, 10, DAY);
    assert_eq!(
        r.unwrap_err(),
        ReconciliationError::ReconciliationFailed(ReserveError::InsufficientReserve { required: 50000, available: 10000 })
    );
    let again = svc.perform_reconciliation(&mut l, 301, 11, DAY).unwrap_err();
    assert!(matches!(again, ReconciliationError::ReconciliationFailed(_)));
    assert_eq!(l.reports[1].discrepancy, Some(50000));
}

#[test]
fn reserve_operations_follow_balance_rules() {
    let mut l = ledger_with(0, 1000);
    assert_eq!(
        l.record_reserve_operation(201, R1, -2000, ReserveOperationType::BankWithdrawal, None, None, Vec::new(), 5)
            .unwrap_err(),
        ReserveError::InsufficientReserve { required: 2000, available: 1000 }
    );
    assert_eq!(
        l.record_reserve_operation(200, R1, 10, ReserveOperationType::FeeCollection, None, None, Vec::new(), 5)
            .unwrap_err(),
        ReserveError::DuplicateId
    );
    assert_eq!(
        l.record_reserve_operation(202, R2, 10, ReserveOperationType::FeeCollection, None, None, Vec::new(), 5)
            .unwrap_err(),
        ReserveError::NotFound
    );
    let e = l
        .record_reserve_operation(203, R1, -1000, ReserveOperationType::BankWithdrawal, Some(9), None, Vec::new(), 5)
        .unwrap();
    assert_eq!(e.amount, -1000);
    assert_eq!(e.transaction_id, Some(9));
    assert_eq!(l.reserves[0].balance, 0);
    l.reserves[0].status = ReserveStatus::Closed;
    assert_eq!(
        l.record_reserve_operation(204, R1, 10, ReserveOperationType::BankDeposit, None, None, Vec::new(), 6)
            .unwrap_err(),
        ReserveError::InactiveReserve
    );
    assert_eq!(l.reserve_transactions.len(), 2);
}

#[test]
fn overlapping_cycle_is_refused() {
    let mut l = ledger_with(100, 100);
    let mut svc = service();
    assert!(svc.try_begin());
    assert_eq!(
        svc.trigger_reconciliation(&mut l, 300, 10, DAY).unwrap_err(),
        ReconciliationError::AlreadyRunning
    );
    assert!(l.reports.is_empty());
    svc.finish();
    assert!(svc.trigger_reconciliation(&mut l, 300, 10, DAY).is_ok());
    assert!(svc.try_begin());
}

#[test]
fn classification_thresholds() {
    let min = Ratio::threshold(95, 100).unwrap();
    let warn = Ratio::one();
    let r = |n: i128, d: i128| Ratio { numerator: n, denominator: d };
    assert_eq!(classify(&r(94, 100), &min, &warn), ReconciliationStatus::Error);
    assert_eq!(classify(&r(95, 100), &min, &warn), ReconciliationStatus::Warning);
    assert_eq!(classify(&r(1, 1), &min, &warn), ReconciliationStatus::Success);
    assert!(Ratio::threshold(1, 0).is_none());
}

#[test]
fn alerts_after_cycles() {
    let mut l = ledger_with(100000, 90000);
    let mut svc = service();
    let failed = svc.trigger_reconciliation(&mut l, 300, 10, DAY);
    let (title, message) = alert_for(&failed).unwrap();
    assert_eq!(title, "Reconciliation Failed");
    assert_eq!(message, "Reserve ratio below threshold: 0.9000");

    let mut l2 = ledger_with(100000, 120000);
    let ok = svc.trigger_reconciliation(&mut l2, 300, 10, DAY);
    let (title, message) = alert_for(&ok).unwrap();
    assert_eq!(title, "Reconciliation Discrepancy");
    assert_eq!(message, "Found discrepancy of 200.00 in daily reconciliation");

    let level = svc.trigger_reconciliation(&mut l2, 301, 11, DAY);
    let (title, message) = alert_for(&level).unwrap();
    assert_eq!(title, "Reserve Ratio Warning");
    assert_eq!(message, "Reserve ratio 1.0000 is below the warning threshold");

    let calm = ReconciliationService::new(Ratio::one(), Ratio::one());
    let quiet = calm.perform_reconciliation(&mut l2, 302, 12, DAY);
    assert!(alert_for(&quiet).is_none());
}

#[test]
fn alert_log_keeps_most_recent() {
    let mut n = NotificationService::new();
    for i in 0..(ALERT_CAPACITY as i64 + 5) {
        n.send_alert("title", &format!("m{}", i), i);
    }
    let alerts = n.get_recent_alerts();
    assert_eq!(alerts.len(), ALERT_CAPACITY);
    assert_eq!(alerts[0].message, "m5");
    assert_eq!(alerts[ALERT_CAPACITY - 1].message, "m104");
    assert_eq!(alerts[0].severity, AlertSeverity::Warning);
}
