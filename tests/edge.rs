use reserve_ledger::api::{
    page_window, require_kyc_level, required_kyc_level, ApiError, AuthUser, CreateWalletRequest,
    RegisterRequest, ResetPasswordRequest,
};
use reserve_ledger::money::amount_text;
use reserve_ledger::queue::{after_failed_attempt, stuck_cutoff, RetryStep};
use reserve_ledger::reserve::ReserveOperationType;
use reserve_ledger::transaction::TransactionStatus;
use reserve_ledger::wallet::WalletStatus;
use reserve_ledger::security::{is_unusual_amount, login_attempts_exceeded, starts_attempt_window, AlertSeverity};
use reserve_ledger::transaction::TransactionType;
use reserve_ledger::user::KycStatus;

#[test]
fn api_error_status_codes() {
    assert_eq!(ApiError::AuthenticationError("x".to_string()).status_code(), 401);
    assert_eq!(ApiError::AuthorizationError("x".to_string()).status_code(), 403);
    assert_eq!(ApiError::ValidationError("x".to_string()).status_code(), 400);
    assert_eq!(ApiError::NotFoundError("x".to_string()).status_code(), 404);
    assert_eq!(ApiError::InsufficientFundsError("x".to_string()).status_code(), 400);
    assert_eq!(ApiError::RateLimitError.status_code(), 429);
    assert_eq!(ApiError::InternalError("db down".to_string()).status_code(), 500);
    assert_eq!(ApiError::InternalError("db down".to_string()).message(), "Internal server error");
    assert_eq!(ApiError::NotFoundError("wallet".to_string()).message(), "Resource not found: wallet");
}

#[test]
fn kyc_gating() {
    assert_eq!(required_kyc_level(TransactionType::Transfer, 100_001), 2);
    assert_eq!(required_kyc_level(TransactionType::Transfer, 100_000), 1);
    assert_eq!(required_kyc_level(TransactionType::Withdrawal, 50_001), 2);
    assert_eq!(required_kyc_level(TransactionType::Deposit, 10_000_000), 1);
    let user = AuthUser { id: 1, kyc_level: 1 };
    assert!(require_kyc_level(1, &user).is_ok());
    assert!(matches!(require_kyc_level(2, &user), Err(ApiError::AuthorizationError(_))));
}

#[test]
fn paging_defaults_and_limits() {
    assert_eq!(page_window(None, None).unwrap(), (1, 10, 0));
    assert_eq!(page_window(Some(3), Some(500)).unwrap(), (3, 100, 200));
    assert!(matches!(page_window(Some(0), None), Err(ApiError::ValidationError(_))));
    assert!(matches!(page_window(Some(1), Some(0)), Err(ApiError::ValidationError(_))));
}

#[test]
fn request_length_rules() {
    let ok = RegisterRequest {
        email: "a@b.co".to_string(),
        password: "12345678".to_string(),
        full_name: "Al".to_string(),
        phone_number: None,
    };
    assert!(ok.validate_lengths().is_ok());
    let short = RegisterRequest { password: "1234567".to_string(), ..ok };
    assert!(matches!(short.validate_lengths(), Err(ApiError::ValidationError(_))));
    let reset = ResetPasswordRequest { token: "t".to_string(), new_password: "ñññññññ".to_string() };
    assert!(reset.validate_lengths().is_err());
    assert!(CreateWalletRequest { currency: String::new() }.validate_lengths().is_err());
    assert!(CreateWalletRequest { currency: "EUR".to_string() }.validate_lengths().is_ok());
}

#[test]
fn security_decisions() {
    assert!(login_attempts_exceeded(5));
    assert!(!login_attempts_exceeded(4));
    assert!(starts_attempt_window(1));
    assert!(!starts_attempt_window(2));
    assert!(is_unusual_amount(301, 100));
    assert!(!is_unusual_amount(300, 100));
    assert!(!is_unusual_amount(i64::MAX, i64::MAX));
    assert!(AlertSeverity::Critical.notifies_admins());
    assert!(!AlertSeverity::Medium.notifies_admins());
}

#[test]
fn storage_texts() {
    assert_eq!(KycStatus::Verified.as_str(), "verified");
    assert_eq!(amount_text(-10000), "-100.00");
    assert_eq!(amount_text(5), "0.05");
}

#[test]
fn email_retry_backoff() {
    assert_eq!(after_failed_attempt(0, 1000), RetryStep::Requeue { retries: 1, next_attempt: 1120 });
    assert_eq!(after_failed_attempt(1, 1000), RetryStep::Requeue { retries: 2, next_attempt: 1240 });
    assert_eq!(after_failed_attempt(2, 1000), RetryStep::Fail { retries: 3 });
    assert_eq!(stuck_cutoff(1000), 700);
}

#[test]
fn status_texts_round_trip() {
    assert_eq!(WalletStatus::Frozen.as_str(), "frozen");
    assert_eq!(WalletStatus::parse("frozen"), Some(WalletStatus::Frozen));
    assert_eq!(WalletStatus::parse("Frozen"), None);
    assert_eq!(ReserveOperationType::BankDeposit.as_str(), "bankdeposit");
    assert_eq!(ReserveOperationType::parse("reconciliation"), Some(ReserveOperationType::Reconciliation));
    assert_eq!(TransactionStatus::parse(TransactionStatus::Reversed.as_str()), Some(TransactionStatus::Reversed));
    assert_eq!(KycStatus::parse("rejected"), Some(KycStatus::Rejected));
    assert_eq!(TransactionType::parse("refund"), Some(TransactionType::Refund));
}
