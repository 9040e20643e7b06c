use vstd::prelude::*;
use vstd::string::StringExecFns;
use crate::transaction::TransactionType;
use crate::wallet::WalletStatus;

verus! {

/// Errors surfaced to HTTP callers.
#[derive(Debug)]
pub enum ApiError {
    AuthenticationError(String),
    AuthorizationError(String),
    ValidationError(String),
    NotFoundError(String),
    InsufficientFundsError(String),
    RateLimitError,
    InternalError(String),
}

/// The HTTP status code of an API error.
pub open spec fn status_code_of(e: ApiError) -> u16 {
    match e {
        ApiError::AuthenticationError(_) => 401,
        ApiError::AuthorizationError(_) => 403,
        ApiError::ValidationError(_) => 400,
        ApiError::NotFoundError(_) => 404,
        ApiError::InsufficientFundsError(_) => 400,
        ApiError::RateLimitError => 429,
        ApiError::InternalError(_) => 500,
    }
}

/// The message of an API error shown to the caller; internal details are hidden.
pub open spec fn api_error_text(e: ApiError) -> Seq<char> {
    match e {
        ApiError::AuthenticationError(m) => "Authentication failed: "@ + m@,
        ApiError::AuthorizationError(m) => "Authorization failed: "@ + m@,
        ApiError::ValidationError(m) => "Invalid input: "@ + m@,
        ApiError::NotFoundError(m) => "Resource not found: "@ + m@,
        ApiError::InsufficientFundsError(m) => "Insufficient funds: "@ + m@,
        ApiError::RateLimitError => "Rate limit exceeded"@,
        ApiError::InternalError(_) => "Internal server error"@,
    }
}

impl ApiError {
    /// The HTTP status code of this error.
    pub fn status_code(&self) -> (r: u16)
        ensures
            r == status_code_of(*self),
    {
        match self {
            ApiError::AuthenticationError(_) => 401,
            ApiError::AuthorizationError(_) => 403,
            ApiError::ValidationError(_) => 400,
            ApiError::NotFoundError(_) => 404,
            ApiError::InsufficientFundsError(_) => 400,
            ApiError::RateLimitError => 429,
            ApiError::InternalError(_) => 500,
        }
    }

    /// The message shown to the caller.
    pub fn message(&self) -> (r: String)
        ensures
            r@ == api_error_text(*self),
    {
        match self {
            ApiError::AuthenticationError(m) => String::from_str("Authentication failed: ").concat(m.as_str()),
            ApiError::AuthorizationError(m) => String::from_str("Authorization failed: ").concat(m.as_str()),
            ApiError::ValidationError(m) => String::from_str("Invalid input: ").concat(m.as_str()),
            ApiError::NotFoundError(m) => String::from_str("Resource not found: ").concat(m.as_str()),
            ApiError::InsufficientFundsError(m) => String::from_str("Insufficient funds: ").concat(m.as_str()),
            ApiError::RateLimitError => String::from_str("Rate limit exceeded"),
            ApiError::InternalError(_) => String::from_str("Internal server error"),
        }
    }
}

/// The caller identified by a verified token.
#[derive(Debug, Clone, Copy, PartialEq, Eq, Structural)]
pub struct AuthUser {
    pub id: u128,
    pub kyc_level: i32,
}

/// Refuses a caller whose KYC level is below `required_level`.
pub fn require_kyc_level(required_level: i32, user: &AuthUser) -> (r: Result<(), ApiError>)
    ensures
        r is Ok <==> user.kyc_level >= required_level,
        r matches Err(e) ==> e is AuthorizationError,
{
    if user.kyc_level < required_level {
        Err(ApiError::AuthorizationError(String::from_str("KYC level too low for this operation")))
    } else {
        Ok(())
    }
}

/// Transfers above 1000.00 and withdrawals above 500.00 (in minor units) need KYC
/// level 2; everything else level 1.
pub open spec fn required_kyc_level_of(transaction_type: TransactionType, amount: i64) -> i32 {
    if transaction_type == TransactionType::Transfer && amount > 100_000 {
        2
    } else if transaction_type == TransactionType::Withdrawal && amount > 50_000 {
        2
    } else {
        1
    }
}

/// The KYC level a transaction request needs.
pub fn required_kyc_level(transaction_type: TransactionType, amount: i64) -> (r: i32)
    ensures
        r == required_kyc_level_of(transaction_type, amount),
{
    match transaction_type {
        TransactionType::Transfer if amount > 100_000 => 2,
        TransactionType::Withdrawal if amount > 50_000 => 2,
        _ => 1,
    }
}

/// Largest page size a list request may ask for.
pub const MAX_PER_PAGE: u32 = 100;

/// A page of a listing: page number (from 1), page size (1 to 100) and the
/// number of rows skipped before it.
pub open spec fn page_window_of(page: Option<u32>, per_page: Option<u32>) -> Option<(u32, u32, i64)> {
    let p = match page {
        Some(p) => p,
        None => 1,
    };
    let n = match per_page {
        Some(n) => if n > MAX_PER_PAGE {
            MAX_PER_PAGE
        } else {
            n
        },
        None => 10,
    };
    if p == 0 || n == 0 {
        None
    } else {
        Some((p, n, ((p - 1) * n) as i64))
    }
}

/// The page to list: defaults of page 1 and 10 rows, at most 100 rows; a page or
/// page size of 0 is refused.
pub fn page_window(page: Option<u32>, per_page: Option<u32>) -> (r: Result<(u32, u32, i64), ApiError>)
    ensures
        match page_window_of(page, per_page) {
            Some(w) => r == Ok::<(u32, u32, i64), ApiError>(w),
            None => r matches Err(e) && e is ValidationError,
        },
{
    let p: u32 = match page {
        Some(p) => p,
        None => 1,
    };
    let n: u32 = match per_page {
        Some(n) => if n > MAX_PER_PAGE {
            MAX_PER_PAGE
        } else {
            n
        },
        None => 10,
    };
    if p == 0 || n == 0 {
        return Err(ApiError::ValidationError(String::from_str("page and per_page must be positive")));
    }
    proof {
        assert(0 <= (p - 1) * n <= 0xffff_ffff * 100) by (nonlinear_arith)
            requires 1 <= p <= 0xffff_ffff, 1 <= n <= 100;
    }
    let offset = (p as i64 - 1) * (n as i64);
    Ok((p, n, offset))
}

/// Request to register a user.
#[derive(Debug)]
pub struct RegisterRequest {
    pub email: String,
    pub password: String,
    pub full_name: String,
    pub phone_number: Option<String>,
}

/// Request to log in.
#[derive(Debug)]
pub struct LoginRequest {
    pub email: String,
    pub password: String,
    pub totp_code: Option<String>,
}

/// Request to set a new password with a reset token.
#[derive(Debug)]
pub struct ResetPasswordRequest {
    pub token: String,
    pub new_password: String,
}

/// A new two-factor secret and its QR code.
#[derive(Debug)]
pub struct TwoFactorResponse {
    pub secret: String,
    pub qr_code: String,
}

/// Request to open a wallet.
#[derive(Debug)]
pub struct CreateWalletRequest {
    pub currency: String,
}

/// Query of a wallet listing.
#[derive(Debug)]
pub struct ListWalletsQuery {
    pub page: Option<u32>,
    pub per_page: Option<u32>,
    pub currency: Option<String>,
    pub status: Option<WalletStatus>,
}

/// Shortest password accepted.
pub const MIN_PASSWORD_LEN: usize = 8;

/// Shortest full name accepted.
pub const MIN_FULL_NAME_LEN: usize = 2;

/// Whether a text has at least `min` characters.
pub fn has_min_chars(s: &str, min: usize) -> (r: bool)
    ensures
        r == (s@.len() >= min),
{
    s.unicode_len() >= min
}

impl RegisterRequest {
    /// Checks the length rules: a password of at least 8 and a full name of at
    /// least 2 characters. The e-mail format is checked where the request is read.
    pub fn validate_lengths(&self) -> (r: Result<(), ApiError>)
        ensures
            r is Ok <==> self.password@.len() >= MIN_PASSWORD_LEN && self.full_name@.len() >= MIN_FULL_NAME_LEN,
            r matches Err(e) ==> e is ValidationError,
    {
        if !has_min_chars(self.password.as_str(), MIN_PASSWORD_LEN) {
            return Err(ApiError::ValidationError(String::from_str("password: at least 8 characters")));
        }
        if !has_min_chars(self.full_name.as_str(), MIN_FULL_NAME_LEN) {
            return Err(ApiError::ValidationError(String::from_str("full_name: at least 2 characters")));
        }
        Ok(())
    }
}

impl ResetPasswordRequest {
    /// Checks that the new password has at least 8 characters.
    pub fn validate_lengths(&self) -> (r: Result<(), ApiError>)
        ensures
            r is Ok <==> self.new_password@.len() >= MIN_PASSWORD_LEN,
            r matches Err(e) ==> e is ValidationError,
    {
        if !has_min_chars(self.new_password.as_str(), MIN_PASSWORD_LEN) {
            return Err(ApiError::ValidationError(String::from_str("new_password: at least 8 characters")));
        }
        Ok(())
    }
}

impl CreateWalletRequest {
    /// Checks that a currency is given.
    pub fn validate_lengths(&self) -> (r: Result<(), ApiError>)
        ensures
            r is Ok <==> self.currency@.len() >= 1,
            r matches Err(e) ==> e is ValidationError,
    {
        if !has_min_chars(self.currency.as_str(), 1) {
            return Err(ApiError::ValidationError(String::from_str("currency: at least 1 character")));
        }
        Ok(())
    }
}

} // verus!
