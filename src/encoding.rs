//! Stored text of the status and kind enumerations: each variant maps to its
//! lowercase name, and reading the text back gives the variant.
use vstd::prelude::*;
use vstd::string::StringExecFns;
use crate::wallet::WalletStatus;
use crate::transaction::TransactionType;
use crate::transaction::TransactionStatus;
use crate::reserve::ReserveStatus;
use crate::reserve::ReserveOperationType;
use crate::reserve::ReserveTransactionStatus;
use crate::user::KycStatus;
use crate::user::kyc_status_text;

verus! {

/// The stored text of a `WalletStatus`.
pub open spec fn wallet_status_text(x: WalletStatus) -> Seq<char> {
    match x {
        WalletStatus::Active => "active"@,
        WalletStatus::Frozen => "frozen"@,
        WalletStatus::Closed => "closed"@,
    }
}

/// The `WalletStatus` stored as `s`, if any.
pub open spec fn wallet_status_from_text(s: Seq<char>) -> Option<WalletStatus> {
    if s == "active"@ {
        Some(WalletStatus::Active)
    } else if s == "frozen"@ {
        Some(WalletStatus::Frozen)
    } else if s == "closed"@ {
        Some(WalletStatus::Closed)
    } else {
        None
    }
}

impl WalletStatus {
    /// The stored text of this value.
    pub fn as_str(&self) -> (r: &'static str)
        ensures
            r@ == wallet_status_text(*self),
    {
        match self {
            WalletStatus::Active => "active",
            WalletStatus::Frozen => "frozen",
            WalletStatus::Closed => "closed",
        }
    }

    /// Reads a stored text back; unknown text gives `None`.
    pub fn parse(s: &str) -> (r: Option<WalletStatus>)
        ensures
            r == wallet_status_from_text(s@),
    {
        let t = String::from_str(s);
        if t == String::from_str("active") {
            Some(WalletStatus::Active)
        } else if t == String::from_str("frozen") {
            Some(WalletStatus::Frozen)
        } else if t == String::from_str("closed") {
            Some(WalletStatus::Closed)
        } else {
            None
        }
    }
}

/// Reading back the stored text of a `WalletStatus` gives the same value.
pub proof fn lemma_wallet_status_round_trip(x: WalletStatus)
    ensures
        wallet_status_from_text(wallet_status_text(x)) == Some(x),
{
    reveal_strlit("active");
    reveal_strlit("frozen");
    reveal_strlit("closed");
    assert("active"@[0] != "frozen"@[0]);
    assert("active"@[0] != "closed"@[0]);
    assert("frozen"@[0] != "closed"@[0]);
}

/// The stored text of a `TransactionType`.
pub open spec fn transaction_type_text(x: TransactionType) -> Seq<char> {
    match x {
        TransactionType::Deposit => "deposit"@,
        TransactionType::Withdrawal => "withdrawal"@,
        TransactionType::Transfer => "transfer"@,
        TransactionType::Fee => "fee"@,
        TransactionType::Refund => "refund"@,
    }
}

/// The `TransactionType` stored as `s`, if any.
pub open spec fn transaction_type_from_text(s: Seq<char>) -> Option<TransactionType> {
    if s == "deposit"@ {
        Some(TransactionType::Deposit)
    } else if s == "withdrawal"@ {
        Some(TransactionType::Withdrawal)
    } else if s == "transfer"@ {
        Some(TransactionType::Transfer)
    } else if s == "fee"@ {
        Some(TransactionType::Fee)
    } else if s == "refund"@ {
        Some(TransactionType::Refund)
    } else {
        None
    }
}

impl TransactionType {
    /// The stored text of this value.
    pub fn as_str(&self) -> (r: &'static str)
        ensures
            r@ == transaction_type_text(*self),
    {
        match self {
            TransactionType::Deposit => "deposit",
            TransactionType::Withdrawal => "withdrawal",
            TransactionType::Transfer => "transfer",
            TransactionType::Fee => "fee",
            TransactionType::Refund => "refund",
        }
    }

    /// Reads a stored text back; unknown text gives `None`.
    pub fn parse(s: &str) -> (r: Option<TransactionType>)
        ensures
            r == transaction_type_from_text(s@),
    {
        let t = String::from_str(s);
        if t == String::from_str("deposit") {
            Some(TransactionType::Deposit)
        } else if t == String::from_str("withdrawal") {
            Some(TransactionType::Withdrawal)
        } else if t == String::from_str("transfer") {
            Some(TransactionType::Transfer)
        } else if t == String::from_str("fee") {
            Some(TransactionType::Fee)
        } else if t == String::from_str("refund") {
            Some(TransactionType::Refund)
        } else {
            None
        }
    }
}

/// Reading back the stored text of a `TransactionType` gives the same value.
pub proof fn lemma_transaction_type_round_trip(x: TransactionType)
    ensures
        transaction_type_from_text(transaction_type_text(x)) == Some(x),
{
    reveal_strlit("deposit");
    reveal_strlit("withdrawal");
    reveal_strlit("transfer");
    reveal_strlit("fee");
    reveal_strlit("refund");
    assert("deposit"@.len() != "withdrawal"@.len());
    assert("deposit"@.len() != "transfer"@.len());
    assert("deposit"@.len() != "fee"@.len());
    assert("deposit"@.len() != "refund"@.len());
    assert("withdrawal"@.len() != "transfer"@.len());
    assert("withdrawal"@.len() != "fee"@.len());
    assert("withdrawal"@.len() != "refund"@.len());
    assert("transfer"@.len() != "fee"@.len());
    assert("transfer"@.len() != "refund"@.len());
    assert("fee"@.len() != "refund"@.len());
}

/// The stored text of a `TransactionStatus`.
pub open spec fn transaction_status_text(x: TransactionStatus) -> Seq<char> {
    match x {
        TransactionStatus::Pending => "pending"@,
        TransactionStatus::Processing => "processing"@,
        TransactionStatus::Completed => "completed"@,
        TransactionStatus::Failed => "failed"@,
        TransactionStatus::Reversed => "reversed"@,
    }
}

/// The `TransactionStatus` stored as `s`, if any.
pub open spec fn transaction_status_from_text(s: Seq<char>) -> Option<TransactionStatus> {
    if s == "pending"@ {
        Some(TransactionStatus::Pending)
    } else if s == "processing"@ {
        Some(TransactionStatus::Processing)
    } else if s == "completed"@ {
        Some(TransactionStatus::Completed)
    } else if s == "failed"@ {
        Some(TransactionStatus::Failed)
    } else if s == "reversed"@ {
        Some(TransactionStatus::Reversed)
    } else {
        None
    }
}

impl TransactionStatus {
    /// The stored text of this value.
    pub fn as_str(&self) -> (r: &'static str)
        ensures
            r@ == transaction_status_text(*self),
    {
        match self {
            TransactionStatus::Pending => "pending",
            TransactionStatus::Processing => "processing",
            TransactionStatus::Completed => "completed",
            TransactionStatus::Failed => "failed",
            TransactionStatus::Reversed => "reversed",
        }
    }

    /// Reads a stored text back; unknown text gives `None`.
    pub fn parse(s: &str) -> (r: Option<TransactionStatus>)
        ensures
            r == transaction_status_from_text(s@),
    {
        let t = String::from_str(s);
        if t == String::from_str("pending") {
            Some(TransactionStatus::Pending)
        } else if t == String::from_str("processing") {
            Some(TransactionStatus::Processing)
        } else if t == String::from_str("completed") {
            Some(TransactionStatus::Completed)
        } else if t == String::from_str("failed") {
            Some(TransactionStatus::Failed)
        } else if t == String::from_str("reversed") {
            Some(TransactionStatus::Reversed)
        } else {
            None
        }
    }
}

/// Reading back the stored text of a `TransactionStatus` gives the same value.
pub proof fn lemma_transaction_status_round_trip(x: TransactionStatus)
    ensures
        transaction_status_from_text(transaction_status_text(x)) == Some(x),
{
    reveal_strlit("pending");
    reveal_strlit("processing");
    reveal_strlit("completed");
    reveal_strlit("failed");
    reveal_strlit("reversed");
    assert("pending"@.len() != "processing"@.len());
    assert("pending"@.len() != "completed"@.len());
    assert("pending"@.len() != "failed"@.len());
    assert("pending"@.len() != "reversed"@.len());
    assert("processing"@.len() != "completed"@.len());
    assert("processing"@.len() != "failed"@.len());
    assert("processing"@.len() != "reversed"@.len());
    assert("completed"@.len() != "failed"@.len());
    assert("completed"@.len() != "reversed"@.len());
    assert("failed"@.len() != "reversed"@.len());
}

/// The stored text of a `ReserveStatus`.
pub open spec fn reserve_status_text(x: ReserveStatus) -> Seq<char> {
    match x {
        ReserveStatus::Active => "active"@,
        ReserveStatus::Suspended => "suspended"@,
        ReserveStatus::Closed => "closed"@,
    }
}

/// The `ReserveStatus` stored as `s`, if any.
pub open spec fn reserve_status_from_text(s: Seq<char>) -> Option<ReserveStatus> {
    if s == "active"@ {
        Some(ReserveStatus::Active)
    } else if s == "suspended"@ {
        Some(ReserveStatus::Suspended)
    } else if s == "closed"@ {
        Some(ReserveStatus::Closed)
    } else {
        None
    }
}

impl ReserveStatus {
    /// The stored text of this value.
    pub fn as_str(&self) -> (r: &'static str)
        ensures
            r@ == reserve_status_text(*self),
    {
        match self {
            ReserveStatus::Active => "active",
            ReserveStatus::Suspended => "suspended",
            ReserveStatus::Closed => "closed",
        }
    }

    /// Reads a stored text back; unknown text gives `None`.
    pub fn parse(s: &str) -> (r: Option<ReserveStatus>)
        ensures
            r == reserve_status_from_text(s@),
    {
        let t = String::from_str(s);
        if t == String::from_str("active") {
            Some(ReserveStatus::Active)
        } else if t == String::from_str("suspended") {
            Some(ReserveStatus::Suspended)
        } else if t == String::from_str("closed") {
            Some(ReserveStatus::Closed)
        } else {
            None
        }
    }
}

/// Reading back the stored text of a `ReserveStatus` gives the same value.
pub proof fn lemma_reserve_status_round_trip(x: ReserveStatus)
    ensures
        reserve_status_from_text(reserve_status_text(x)) == Some(x),
{
    reveal_strlit("active");
    reveal_strlit("suspended");
    reveal_strlit("closed");
    assert("active"@.len() != "suspended"@.len());
    assert("active"@[0] != "closed"@[0]);
    assert("suspended"@.len() != "closed"@.len());
}

/// The stored text of a `ReserveOperationType`.
pub open spec fn reserve_operation_text(x: ReserveOperationType) -> Seq<char> {
    match x {
        ReserveOperationType::BankDeposit => "bankdeposit"@,
        ReserveOperationType::BankWithdrawal => "bankwithdrawal"@,
        ReserveOperationType::FeeCollection => "feecollection"@,
        ReserveOperationType::Reconciliation => "reconciliation"@,
    }
}

/// The `ReserveOperationType` stored as `s`, if any.
pub open spec fn reserve_operation_from_text(s: Seq<char>) -> Option<ReserveOperationType> {
    if s == "bankdeposit"@ {
        Some(ReserveOperationType::BankDeposit)
    } else if s == "bankwithdrawal"@ {
        Some(ReserveOperationType::BankWithdrawal)
    } else if s == "feecollection"@ {
        Some(ReserveOperationType::FeeCollection)
    } else if s == "reconciliation"@ {
        Some(ReserveOperationType::Reconciliation)
    } else {
        None
    }
}

impl ReserveOperationType {
    /// The stored text of this value.
    pub fn as_str(&self) -> (r: &'static str)
        ensures
            r@ == reserve_operation_text(*self),
    {
        match self {
            ReserveOperationType::BankDeposit => "bankdeposit",
            ReserveOperationType::BankWithdrawal => "bankwithdrawal",
            ReserveOperationType::FeeCollection => "feecollection",
            ReserveOperationType::Reconciliation => "reconciliation",
        }
    }

    /// Reads a stored text back; unknown text gives `None`.
    pub fn parse(s: &str) -> (r: Option<ReserveOperationType>)
        ensures
            r == reserve_operation_from_text(s@),
    {
        let t = String::from_str(s);
        if t == String::from_str("bankdeposit") {
            Some(ReserveOperationType::BankDeposit)
        } else if t == String::from_str("bankwithdrawal") {
            Some(ReserveOperationType::BankWithdrawal)
        } else if t == String::from_str("feecollection") {
            Some(ReserveOperationType::FeeCollection)
        } else if t == String::from_str("reconciliation") {
            Some(ReserveOperationType::Reconciliation)
        } else {
            None
        }
    }
}

/// Reading back the stored text of a `ReserveOperationType` gives the same value.
pub proof fn lemma_reserve_operation_round_trip(x: ReserveOperationType)
    ensures
        reserve_operation_from_text(reserve_operation_text(x)) == Some(x),
{
    reveal_strlit("bankdeposit");
    reveal_strlit("bankwithdrawal");
    reveal_strlit("feecollection");
    reveal_strlit("reconciliation");
    assert("bankdeposit"@.len() != "bankwithdrawal"@.len());
    assert("bankdeposit"@.len() != "feecollection"@.len());
    assert("bankdeposit"@.len() != "reconciliation"@.len());
    assert("bankwithdrawal"@.len() != "feecollection"@.len());
    assert("bankwithdrawal"@[0] != "reconciliation"@[0]);
    assert("feecollection"@.len() != "reconciliation"@.len());
}

/// The stored text of a `ReserveTransactionStatus`.
pub open spec fn reserve_entry_status_text(x: ReserveTransactionStatus) -> Seq<char> {
    match x {
        ReserveTransactionStatus::Pending => "pending"@,
        ReserveTransactionStatus::Completed => "completed"@,
        ReserveTransactionStatus::Failed => "failed"@,
    }
}

/// The `ReserveTransactionStatus` stored as `s`, if any.
pub open spec fn reserve_entry_status_from_text(s: Seq<char>) -> Option<ReserveTransactionStatus> {
    if s == "pending"@ {
        Some(ReserveTransactionStatus::Pending)
    } else if s == "completed"@ {
        Some(ReserveTransactionStatus::Completed)
    } else if s == "failed"@ {
        Some(ReserveTransactionStatus::Failed)
    } else {
        None
    }
}

impl ReserveTransactionStatus {
    /// The stored text of this value.
    pub fn as_str(&self) -> (r: &'static str)
        ensures
            r@ == reserve_entry_status_text(*self),
    {
        match self {
            ReserveTransactionStatus::Pending => "pending",
            ReserveTransactionStatus::Completed => "completed",
            ReserveTransactionStatus::Failed => "failed",
        }
    }

    /// Reads a stored text back; unknown text gives `None`.
    pub fn parse(s: &str) -> (r: Option<ReserveTransactionStatus>)
        ensures
            r == reserve_entry_status_from_text(s@),
    {
        let t = String::from_str(s);
        if t == String::from_str("pending") {
            Some(ReserveTransactionStatus::Pending)
        } else if t == String::from_str("completed") {
            Some(ReserveTransactionStatus::Completed)
        } else if t == String::from_str("failed") {
            Some(ReserveTransactionStatus::Failed)
        } else {
            None
        }
    }
}

/// Reading back the stored text of a `ReserveTransactionStatus` gives the same value.
pub proof fn lemma_reserve_entry_status_round_trip(x: ReserveTransactionStatus)
    ensures
        reserve_entry_status_from_text(reserve_entry_status_text(x)) == Some(x),
{
    reveal_strlit("pending");
    reveal_strlit("completed");
    reveal_strlit("failed");
    assert("pending"@.len() != "completed"@.len());
    assert("pending"@.len() != "failed"@.len());
    assert("completed"@.len() != "failed"@.len());
}

/// The `KycStatus` stored as `s`, if any.
pub open spec fn kyc_status_from_text(s: Seq<char>) -> Option<KycStatus> {
    if s == "pending"@ {
        Some(KycStatus::Pending)
    } else if s == "submitted"@ {
        Some(KycStatus::Submitted)
    } else if s == "verified"@ {
        Some(KycStatus::Verified)
    } else if s == "rejected"@ {
        Some(KycStatus::Rejected)
    } else {
        None
    }
}

impl KycStatus {
    /// Reads a stored text back; unknown text gives `None`.
    pub fn parse(s: &str) -> (r: Option<KycStatus>)
        ensures
            r == kyc_status_from_text(s@),
    {
        let t = String::from_str(s);
        if t == String::from_str("pending") {
            Some(KycStatus::Pending)
        } else if t == String::from_str("submitted") {
            Some(KycStatus::Submitted)
        } else if t == String::from_str("verified") {
            Some(KycStatus::Verified)
        } else if t == String::from_str("rejected") {
            Some(KycStatus::Rejected)
        } else {
            None
        }
    }
}

/// Reading back the stored text of a `KycStatus` gives the same value.
pub proof fn lemma_kyc_status_round_trip(x: KycStatus)
    ensures
        kyc_status_from_text(kyc_status_text(x)) == Some(x),
{
    reveal_strlit("pending");
    reveal_strlit("submitted");
    reveal_strlit("verified");
    reveal_strlit("rejected");
    assert("pending"@.len() != "submitted"@.len());
    assert("pending"@.len() != "verified"@.len());
    assert("pending"@.len() != "rejected"@.len());
    assert("submitted"@.len() != "verified"@.len());
    assert("submitted"@.len() != "rejected"@.len());
    assert("verified"@[0] != "rejected"@[0]);
}

} // verus!
