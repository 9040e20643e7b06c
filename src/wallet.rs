use vstd::prelude::*;
use vstd::string::StringExecFns;
use crate::money::{AMOUNT_SCALE, amount_text, decimal_text_of};

verus! {

/// Lifecycle state of a wallet; wallets are never deleted, only moved between states.
#[derive(Debug, Clone, Copy, PartialEq, Eq, Structural)]
pub enum WalletStatus {
    Active,
    Frozen,
    Closed,
}

/// A customer wallet. `balance` is in minor units and never negative.
#[derive(Debug)]
pub struct Wallet {
    pub id: u128,
    pub user_id: u128,
    pub balance: i64,
    pub currency: String,
    pub status: WalletStatus,
    pub created_at: i64,
    pub updated_at: i64,
}

/// Why a wallet refused a balance change.
#[derive(Debug, Clone, Copy, PartialEq, Eq, Structural)]
pub enum WalletError {
    /// The change would leave the balance below zero.
    InsufficientFunds { required: u64, available: u64 },
    /// The wallet is not Active.
    InactiveWallet,
    /// The amount is not positive, or the new balance is not representable.
    InvalidAmount,
    /// No wallet has the given identity.
    NotFound,
}

/// The human-readable reason of a wallet error.
pub open spec fn wallet_error_text(e: WalletError) -> Seq<char> {
    match e {
        WalletError::InsufficientFunds { required, available } => "Insufficient funds: required "@
            + decimal_text_of(required as i128, AMOUNT_SCALE) + ", available "@ + decimal_text_of(
            available as i128,
            AMOUNT_SCALE,
        ),
        WalletError::InactiveWallet => "Wallet is not active"@,
        WalletError::InvalidAmount => "Invalid amount"@,
        WalletError::NotFound => "Wallet not found"@,
    }
}

impl WalletError {
    /// The human-readable reason of this error.
    pub fn message(&self) -> (r: String)
        ensures
            r@ == wallet_error_text(*self),
    {
        match self {
            WalletError::InsufficientFunds { required, available } => {
                let s = String::from_str("Insufficient funds: required ");
                let s = s.concat(amount_text(*required as i128).as_str());
                let s = s.concat(", available ");
                s.concat(amount_text(*available as i128).as_str())
            },
            WalletError::InactiveWallet => String::from_str("Wallet is not active"),
            WalletError::InvalidAmount => String::from_str("Invalid amount"),
            WalletError::NotFound => String::from_str("Wallet not found"),
        }
    }
}

/// The outcome of the pre-validation of a debit of `amount` from `w`.
pub open spec fn debit_check(w: Wallet, amount: i64) -> Result<(), WalletError> {
    if w.status != WalletStatus::Active {
        Err(WalletError::InactiveWallet)
    } else if amount <= 0 {
        Err(WalletError::InvalidAmount)
    } else if w.balance < amount {
        Err(WalletError::InsufficientFunds { required: amount as u64, available: w.balance as u64 })
    } else {
        Ok(())
    }
}

/// The outcome of the pre-validation of a credit of `amount` to `w`.
pub open spec fn credit_check(w: Wallet, amount: i64) -> Result<(), WalletError> {
    if w.status != WalletStatus::Active {
        Err(WalletError::InactiveWallet)
    } else if amount <= 0 {
        Err(WalletError::InvalidAmount)
    } else {
        Ok(())
    }
}

/// The magnitude of a signed amount.
pub open spec fn magnitude(delta: i64) -> u64 {
    if delta < 0 {
        (-(delta as int)) as u64
    } else {
        delta as u64
    }
}

/// The outcome of the locked balance change `balance + delta` on `w`.
pub open spec fn delta_check(w: Wallet, delta: i64) -> Result<(), WalletError> {
    if w.status != WalletStatus::Active {
        Err(WalletError::InactiveWallet)
    } else if w.balance + delta < 0 {
        Err(WalletError::InsufficientFunds { required: magnitude(delta), available: w.balance as u64 })
    } else if w.balance + delta > i64::MAX {
        Err(WalletError::InvalidAmount)
    } else {
        Ok(())
    }
}

/// `w` with its balance moved by `delta` at time `now`.
pub open spec fn with_delta(w: Wallet, delta: int, now: i64) -> Wallet {
    Wallet { balance: (w.balance + delta) as i64, updated_at: now, ..w }
}

impl Wallet {
    /// A wallet row is well formed when its balance is not negative.
    pub open spec fn wf(&self) -> bool {
        self.balance >= 0
    }

    /// A new, empty, Active wallet.
    pub fn new(id: u128, user_id: u128, currency: String, now: i64) -> (r: Wallet)
        ensures
            r == (Wallet {
                id,
                user_id,
                balance: 0,
                currency,
                status: WalletStatus::Active,
                created_at: now,
                updated_at: now,
            }),
            r.wf(),
    {
        Wallet {
            id,
            user_id,
            balance: 0,
            currency,
            status: WalletStatus::Active,
            created_at: now,
            updated_at: now,
        }
    }

    /// Validates, without a lock, that the wallet can be debited `amount`.
    pub fn can_debit(&self, amount: i64) -> (r: Result<(), WalletError>)
        requires
            self.wf(),
        ensures
            r == debit_check(*self, amount),
    {
        if self.status != WalletStatus::Active {
            return Err(WalletError::InactiveWallet);
        }
        if amount <= 0 {
            return Err(WalletError::InvalidAmount);
        }
        if self.balance < amount {
            return Err(
                WalletError::InsufficientFunds {
                    required: amount as u64,
                    available: self.balance as u64,
                },
            );
        }
        Ok(())
    }

    /// Validates, without a lock, that the wallet can be credited `amount`.
    pub fn can_credit(&self, amount: i64) -> (r: Result<(), WalletError>)
        ensures
            r == credit_check(*self, amount),
    {
        if self.status != WalletStatus::Active {
            return Err(WalletError::InactiveWallet);
        }
        if amount <= 0 {
            return Err(WalletError::InvalidAmount);
        }
        Ok(())
    }

    /// The locked balance change: the wallet must be Active and the new balance
    /// must not be negative. The wallet is unchanged when the change is refused.
    pub fn update_balance(&mut self, delta: i64, now: i64) -> (r: Result<(), WalletError>)
        requires
            old(self).wf(),
        ensures
            r == delta_check(*old(self), delta),
            r is Ok ==> *final(self) == with_delta(*old(self), delta as int, now),
            r is Err ==> *final(self) == *old(self),
            final(self).wf(),
    {
        if self.status != WalletStatus::Active {
            return Err(WalletError::InactiveWallet);
        }
        let new_balance = self.balance as i128 + delta as i128;
        if new_balance < 0 {
            let required: u64 = if delta < 0 {
                (-(delta as i128)) as u64
            } else {
                delta as u64
            };
            return Err(
                WalletError::InsufficientFunds { required, available: self.balance as u64 },
            );
        }
        if new_balance > i64::MAX as i128 {
            return Err(WalletError::InvalidAmount);
        }
        self.balance = new_balance as i64;
        self.updated_at = now;
        Ok(())
    }

    /// Moves an Active wallet to Frozen; any other wallet is refused and unchanged.
    pub fn freeze(&mut self, now: i64) -> (r: Result<(), WalletError>)
        ensures
            old(self).status == WalletStatus::Active <==> r is Ok,
            r is Err ==> r == Err::<(), WalletError>(WalletError::InactiveWallet)
                && *final(self) == *old(self),
            r is Ok ==> *final(self) == (Wallet {
                status: WalletStatus::Frozen,
                updated_at: now,
                ..*old(self)
            }),
    {
        if self.status != WalletStatus::Active {
            return Err(WalletError::InactiveWallet);
        }
        self.status = WalletStatus::Frozen;
        self.updated_at = now;
        Ok(())
    }

    /// A copy of this wallet row.
    pub fn duplicate(&self) -> (r: Wallet)
        ensures
            r == *self,
    {
        Wallet {
            id: self.id,
            user_id: self.user_id,
            balance: self.balance,
            currency: self.currency.clone(),
            status: self.status,
            created_at: self.created_at,
            updated_at: self.updated_at,
        }
    }
}

} // verus!
