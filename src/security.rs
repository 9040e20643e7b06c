use vstd::prelude::*;

verus! {

/// How serious a security alert is.
#[derive(Debug, Clone, Copy, PartialEq, Eq, Structural)]
pub enum AlertSeverity {
    Low,
    Medium,
    High,
    Critical,
}

/// Failed login attempts within the window that raise an alert.
pub const LOGIN_ATTEMPT_LIMIT: i32 = 5;

impl AlertSeverity {
    /// High and Critical alerts are also sent to the administrators.
    pub fn notifies_admins(&self) -> (r: bool)
        ensures
            r == (*self == AlertSeverity::High || *self == AlertSeverity::Critical),
    {
        matches!(self, AlertSeverity::High | AlertSeverity::Critical)
    }
}

/// Whether a count of login attempts in the current window warrants a High alert.
pub fn login_attempts_exceeded(attempts: i32) -> (r: bool)
    ensures
        r == (attempts >= LOGIN_ATTEMPT_LIMIT),
{
    attempts >= LOGIN_ATTEMPT_LIMIT
}

/// Whether the attempt counter was just created, so its expiry must be set.
pub fn starts_attempt_window(attempts: i32) -> (r: bool)
    ensures
        r == (attempts == 1),
{
    attempts == 1
}

/// Whether a transaction amount is more than three times the user's recent
/// average, which warrants a Medium alert and holds the transaction back.
pub fn is_unusual_amount(amount: i64, average: i64) -> (r: bool)
    ensures
        r == (amount > 3 * average),
{
    (amount as i128) > 3 * (average as i128)
}

} // verus!
