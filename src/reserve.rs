use vstd::prelude::*;
use vstd::string::StringExecFns;
use crate::money::{Ratio, AMOUNT_SCALE, amount_text, decimal_text_of, ratio_text_of};
use crate::transaction::{meta_view, opt_view, MetaEntry, copy_metadata};
use crate::wallet::magnitude;

verus! {

/// Lifecycle state of a custodial reserve account.
#[derive(Debug, Clone, Copy, PartialEq, Eq, Structural)]
pub enum ReserveStatus {
    Active,
    Suspended,
    Closed,
}

/// What a reserve ledger entry records.
#[derive(Debug, Clone, Copy, PartialEq, Eq, Structural)]
pub enum ReserveOperationType {
    BankDeposit,
    BankWithdrawal,
    FeeCollection,
    Reconciliation,
}

/// Lifecycle of a reserve ledger entry.
#[derive(Debug, Clone, Copy, PartialEq, Eq, Structural)]
pub enum ReserveTransactionStatus {
    Pending,
    Completed,
    Failed,
}

/// Errors of the reserve ledger.
#[derive(Debug, Clone, Copy, PartialEq, Eq, Structural)]
pub enum ReserveError {
    /// The change would leave the reserve balance below zero.
    InsufficientReserve { required: u64, available: u64 },
    /// The reserve account is not Active.
    InactiveReserve,
    /// The new balance is not representable.
    InvalidAmount,
    /// Reserves do not cover wallet liabilities.
    ReserveRatioError(Ratio),
    /// No reserve account has the given identity.
    NotFound,
    /// The identity chosen for a new entry is already taken.
    DuplicateId,
}

/// The human-readable reason of a reserve error.
pub open spec fn reserve_error_text(e: ReserveError) -> Seq<char> {
    match e {
        ReserveError::InsufficientReserve { required, available } => "Insufficient reserve: required "@
            + decimal_text_of(required as i128, AMOUNT_SCALE) + ", available "@ + decimal_text_of(
            available as i128,
            AMOUNT_SCALE,
        ),
        ReserveError::InactiveReserve => "Reserve account is not active"@,
        ReserveError::InvalidAmount => "Invalid amount"@,
        ReserveError::ReserveRatioError(ratio) => "Reserve ratio below threshold: "@ + ratio_text_of(ratio),
        ReserveError::NotFound => "Reserve account not found"@,
        ReserveError::DuplicateId => "Reserve entry identity already in use"@,
    }
}

impl ReserveError {
    /// Every ratio this error carries is a ratio of totals.
    pub open spec fn wf(&self) -> bool {
        match self {
            ReserveError::ReserveRatioError(ratio) => ratio.wf(),
            _ => true,
        }
    }

    /// The human-readable reason of this error.
    pub fn message(&self) -> (r: String)
        requires
            self.wf(),
        ensures
            r@ == reserve_error_text(*self),
    {
        match self {
            ReserveError::InsufficientReserve { required, available } => {
                let s = String::from_str("Insufficient reserve: required ");
                let s = s.concat(amount_text(*required as i128).as_str());
                let s = s.concat(", available ");
                s.concat(amount_text(*available as i128).as_str())
            },
            ReserveError::InactiveReserve => String::from_str("Reserve account is not active"),
            ReserveError::InvalidAmount => String::from_str("Invalid amount"),
            ReserveError::ReserveRatioError(ratio) => String::from_str("Reserve ratio below threshold: ").concat(
                ratio.text().as_str(),
            ),
            ReserveError::NotFound => String::from_str("Reserve account not found"),
            ReserveError::DuplicateId => String::from_str("Reserve entry identity already in use"),
        }
    }
}

/// An off-system custodial account backing wallet balances. `balance` is in
/// minor units and never negative.
#[derive(Debug)]
pub struct ReserveAccount {
    pub id: u128,
    pub bank_name: String,
    pub account_number: String,
    pub currency: String,
    pub balance: i64,
    pub status: ReserveStatus,
    pub created_at: i64,
    pub updated_at: i64,
}

/// One entry of the reserve's own ledger: every reserve balance change has one.
#[derive(Debug)]
pub struct ReserveTransaction {
    pub id: u128,
    pub reserve_account_id: u128,
    pub transaction_id: Option<u128>,
    pub amount: i64,
    pub operation_type: ReserveOperationType,
    pub status: ReserveTransactionStatus,
    pub reference_id: Option<String>,
    pub metadata: Vec<MetaEntry>,
    pub created_at: i64,
    pub updated_at: i64,
}

/// The outcome of the locked reserve balance change `balance + delta` on `a`.
pub open spec fn reserve_delta_check(a: ReserveAccount, delta: i64) -> Result<(), ReserveError> {
    if a.status != ReserveStatus::Active {
        Err(ReserveError::InactiveReserve)
    } else if a.balance + delta < 0 {
        Err(ReserveError::InsufficientReserve { required: magnitude(delta), available: a.balance as u64 })
    } else if a.balance + delta > i64::MAX {
        Err(ReserveError::InvalidAmount)
    } else {
        Ok(())
    }
}

/// `a` with its balance moved by `delta` at time `now`.
pub open spec fn reserve_with_delta(a: ReserveAccount, delta: int, now: i64) -> ReserveAccount {
    ReserveAccount { balance: (a.balance + delta) as i64, updated_at: now, ..a }
}

impl ReserveAccount {
    /// A reserve row is well formed when its balance is not negative.
    pub open spec fn wf(&self) -> bool {
        self.balance >= 0
    }

    /// A new, empty, Active reserve account.
    pub fn new(id: u128, bank_name: String, account_number: String, currency: String, now: i64) -> (r: ReserveAccount)
        ensures
            r == (ReserveAccount {
                id,
                bank_name,
                account_number,
                currency,
                balance: 0,
                status: ReserveStatus::Active,
                created_at: now,
                updated_at: now,
            }),
            r.wf(),
    {
        ReserveAccount {
            id,
            bank_name,
            account_number,
            currency,
            balance: 0,
            status: ReserveStatus::Active,
            created_at: now,
            updated_at: now,
        }
    }

    /// The locked reserve balance change: the account must be Active and the new
    /// balance must not be negative. The account is unchanged when refused.
    pub fn update_balance(&mut self, delta: i64, now: i64) -> (r: Result<(), ReserveError>)
        requires
            old(self).wf(),
        ensures
            r == reserve_delta_check(*old(self), delta),
            r is Ok ==> *final(self) == reserve_with_delta(*old(self), delta as int, now),
            r is Err ==> *final(self) == *old(self),
            final(self).wf(),
    {
        if self.status != ReserveStatus::Active {
            return Err(ReserveError::InactiveReserve);
        }
        let new_balance = self.balance as i128 + delta as i128;
        if new_balance < 0 {
            let required: u64 = if delta < 0 {
                (-(delta as i128)) as u64
            } else {
                delta as u64
            };
            return Err(
                ReserveError::InsufficientReserve { required, available: self.balance as u64 },
            );
        }
        if new_balance > i64::MAX as i128 {
            return Err(ReserveError::InvalidAmount);
        }
        self.balance = new_balance as i64;
        self.updated_at = now;
        Ok(())
    }

    /// A copy of this reserve row.
    pub fn duplicate(&self) -> (r: ReserveAccount)
        ensures
            r == *self,
    {
        ReserveAccount {
            id: self.id,
            bank_name: self.bank_name.clone(),
            account_number: self.account_number.clone(),
            currency: self.currency.clone(),
            balance: self.balance,
            status: self.status,
            created_at: self.created_at,
            updated_at: self.updated_at,
        }
    }
}

/// A reserve ledger entry and a copy agree on everything, metadata by its view.
pub open spec fn same_entry(a: ReserveTransaction, b: ReserveTransaction) -> bool {
    &&& a.id == b.id
    &&& a.reserve_account_id == b.reserve_account_id
    &&& a.transaction_id == b.transaction_id
    &&& a.amount == b.amount
    &&& a.operation_type == b.operation_type
    &&& a.status == b.status
    &&& opt_view(a.reference_id) == opt_view(b.reference_id)
    &&& meta_view(a.metadata@) == meta_view(b.metadata@)
    &&& a.created_at == b.created_at
    &&& a.updated_at == b.updated_at
}

/// `e` records exactly the given fields, as a Completed entry made at `now`.
pub open spec fn entry_is(
    e: ReserveTransaction,
    id: u128,
    reserve_account_id: u128,
    transaction_id: Option<u128>,
    amount: i64,
    operation_type: ReserveOperationType,
    reference_id: Option<Seq<char>>,
    metadata: Seq<(Seq<char>, Seq<char>)>,
    now: i64,
) -> bool {
    &&& e.id == id
    &&& e.reserve_account_id == reserve_account_id
    &&& e.transaction_id == transaction_id
    &&& e.amount == amount
    &&& e.operation_type == operation_type
    &&& e.status == ReserveTransactionStatus::Completed
    &&& opt_view(e.reference_id) == reference_id
    &&& meta_view(e.metadata@) == metadata
    &&& e.created_at == now
    &&& e.updated_at == now
}

impl ReserveTransaction {
    /// A copy of this entry.
    pub fn duplicate(&self) -> (r: ReserveTransaction)
        ensures
            same_entry(r, *self),
    {
        let reference_id = match &self.reference_id {
            Some(t) => Some(t.clone()),
            None => None,
        };
        ReserveTransaction {
            id: self.id,
            reserve_account_id: self.reserve_account_id,
            transaction_id: self.transaction_id,
            amount: self.amount,
            operation_type: self.operation_type,
            status: self.status,
            reference_id,
            metadata: copy_metadata(&self.metadata),
            created_at: self.created_at,
            updated_at: self.updated_at,
        }
    }
}

} // verus!
