use vstd::prelude::*;
use vstd::string::StringExecFns;
use crate::wallet::{WalletError, wallet_error_text};

verus! {

/// The kind of money movement a transaction records.
#[derive(Debug, Clone, Copy, PartialEq, Eq, Structural)]
pub enum TransactionType {
    Deposit,
    Withdrawal,
    Transfer,
    Fee,
    Refund,
}

/// Lifecycle of a transaction record.
#[derive(Debug, Clone, Copy, PartialEq, Eq, Structural)]
pub enum TransactionStatus {
    Pending,
    Processing,
    Completed,
    Failed,
    Reversed,
}

/// The legal status transitions: Pending to Processing, Processing to Completed,
/// Completed to Reversed, and any of Pending, Processing, Completed to Failed.
/// Nothing leaves Reversed or Failed.
pub open spec fn is_transition(from: TransactionStatus, to: TransactionStatus) -> bool {
    match from {
        TransactionStatus::Pending => to == TransactionStatus::Processing || to
            == TransactionStatus::Failed,
        TransactionStatus::Processing => to == TransactionStatus::Completed || to
            == TransactionStatus::Failed,
        TransactionStatus::Completed => to == TransactionStatus::Reversed || to
            == TransactionStatus::Failed,
        TransactionStatus::Failed => false,
        TransactionStatus::Reversed => false,
    }
}

impl TransactionStatus {
    /// Whether a transaction in this status may move to `next`.
    pub fn can_transition_to(&self, next: TransactionStatus) -> (r: bool)
        ensures
            r == is_transition(*self, next),
    {
        match self {
            TransactionStatus::Pending => next == TransactionStatus::Processing || next
                == TransactionStatus::Failed,
            TransactionStatus::Processing => next == TransactionStatus::Completed || next
                == TransactionStatus::Failed,
            TransactionStatus::Completed => next == TransactionStatus::Reversed || next
                == TransactionStatus::Failed,
            TransactionStatus::Failed => false,
            TransactionStatus::Reversed => false,
        }
    }
}

/// One key of a transaction's metadata object, with its value as text.
#[derive(Debug)]
pub struct MetaEntry {
    pub key: String,
    pub value: String,
}

impl MetaEntry {
    /// A copy of this entry.
    pub fn duplicate(&self) -> (r: MetaEntry)
        ensures
            r == *self,
    {
        MetaEntry { key: self.key.clone(), value: self.value.clone() }
    }
}

/// Metadata as a sequence of (key, value) texts.
pub open spec fn meta_view(m: Seq<MetaEntry>) -> Seq<(Seq<char>, Seq<char>)> {
    m.map_values(|e: MetaEntry| (e.key@, e.value@))
}

/// Whether `i` is the first position of `m` whose key is `key`.
pub open spec fn is_first_key(m: Seq<(Seq<char>, Seq<char>)>, key: Seq<char>, i: int) -> bool {
    &&& 0 <= i < m.len()
    &&& m[i].0 == key
    &&& forall|j: int| 0 <= j < i ==> m[j].0 != key
}

/// `m` with the value under `key` set to `value`: the first entry with that key is
/// replaced, or the entry is appended when the key is absent.
pub open spec fn set_key(m: Seq<(Seq<char>, Seq<char>)>, key: Seq<char>, value: Seq<char>) -> Seq<
    (Seq<char>, Seq<char>),
> {
    if exists|i: int| 0 <= i < m.len() && m[i].0 == key {
        let i = choose|i: int| is_first_key(m, key, i);
        m.update(i, (key, value))
    } else {
        m.push((key, value))
    }
}

/// Copies metadata entry by entry.
pub fn copy_metadata(m: &Vec<MetaEntry>) -> (r: Vec<MetaEntry>)
    ensures
        r@ == m@,
{
    let mut out: Vec<MetaEntry> = Vec::new();
    let mut i: usize = 0;
    while i < m.len()
        invariant
            i <= m.len(),
            out@ == m@.subrange(0, i as int),
        decreases m.len() - i,
    {
        out.push(m[i].duplicate());
        i = i + 1;
    }
    assert(m@.subrange(0, m.len() as int) == m@);
    out
}

proof fn lemma_first_key_unique(m: Seq<(Seq<char>, Seq<char>)>, key: Seq<char>, i: int, j: int)
    requires
        is_first_key(m, key, i),
        is_first_key(m, key, j),
    ensures
        i == j,
{
    if i < j {
        assert(m[i].0 != key);
    } else if j < i {
        assert(m[j].0 != key);
    }
}

/// Sets the value under `e.key` in `m` to `e.value` (see `set_key`).
pub fn put_entry(m: &mut Vec<MetaEntry>, e: MetaEntry)
    ensures
        meta_view(final(m)@) == set_key(meta_view(old(m)@), e.key@, e.value@),
{
    let ghost mv = meta_view(m@);
    let mut i: usize = 0;
    while i < m.len()
        invariant
            i <= m.len(),
            m@ == old(m)@,
            mv == meta_view(m@),
            mv.len() == m@.len(),
            forall|j: int| 0 <= j < i ==> mv[j].0 != e.key@,
        decreases m.len() - i,
    {
        if m[i].key == e.key {
            proof {
                assert(mv[i as int].0 == e.key@);
                assert(is_first_key(mv, e.key@, i as int));
                let k = choose|k: int| is_first_key(mv, e.key@, k);
                lemma_first_key_unique(mv, e.key@, i as int, k);
            }
            let ghost kv = (e.key@, e.value@);
            m.set(i, e);
            proof {
                assert(meta_view(m@) =~= mv.update(i as int, kv));
            }
            return;
        }
        i = i + 1;
    }
    let ghost kv = (e.key@, e.value@);
    m.push(e);
    proof {
        assert(!(exists|i: int| 0 <= i < mv.len() && mv[i].0 == kv.0));
        assert(meta_view(m@) =~= mv.push(kv));
    }
}

/// Why a transaction was refused before any wallet was touched.
#[derive(Debug, Clone, Copy, PartialEq, Eq, Structural)]
pub enum InvalidReason {
    /// Neither a debit nor a credit wallet was given.
    NoWallet,
    /// The debit and the credit wallet are the same.
    SameWallet,
    /// The debit wallet does not exist.
    DebitWalletNotFound,
    /// The credit wallet does not exist.
    CreditWalletNotFound,
}

/// Errors of the transaction engine.
#[derive(Debug, Clone, Copy, PartialEq, Eq, Structural)]
pub enum TransactionError {
    InvalidTransaction(InvalidReason),
    /// The amount is not positive.
    InvalidAmount,
    /// A wallet refused its side of the movement.
    WalletError(WalletError),
    /// No transaction has the given identity.
    NotFound,
    /// The transaction is not in a state that allows the operation.
    InvalidState,
    /// The identity chosen for a new record is already taken.
    DuplicateId,
}

/// The human-readable reason of a transaction error.
pub open spec fn transaction_error_text(e: TransactionError) -> Seq<char> {
    match e {
        TransactionError::InvalidTransaction(reason) => "Invalid transaction: "@ + match reason {
            InvalidReason::NoWallet => "either debit or credit wallet must be specified"@,
            InvalidReason::SameWallet => "debit and credit wallets cannot be the same"@,
            InvalidReason::DebitWalletNotFound => "debit wallet not found"@,
            InvalidReason::CreditWalletNotFound => "credit wallet not found"@,
        },
        TransactionError::InvalidAmount => "Invalid amount: amount must be positive"@,
        TransactionError::WalletError(w) => "Wallet error: "@ + wallet_error_text(w),
        TransactionError::NotFound => "Transaction not found"@,
        TransactionError::InvalidState => "Invalid transaction state"@,
        TransactionError::DuplicateId => "Transaction identity already in use"@,
    }
}

impl TransactionError {
    /// The human-readable reason of this error.
    pub fn message(&self) -> (r: String)
        ensures
            r@ == transaction_error_text(*self),
    {
        match self {
            TransactionError::InvalidTransaction(reason) => {
                let detail = match reason {
                    InvalidReason::NoWallet => "either debit or credit wallet must be specified",
                    InvalidReason::SameWallet => "debit and credit wallets cannot be the same",
                    InvalidReason::DebitWalletNotFound => "debit wallet not found",
                    InvalidReason::CreditWalletNotFound => "credit wallet not found",
                };
                String::from_str("Invalid transaction: ").concat(detail)
            },
            TransactionError::InvalidAmount => String::from_str("Invalid amount: amount must be positive"),
            TransactionError::WalletError(w) => String::from_str("Wallet error: ").concat(w.message().as_str()),
            TransactionError::NotFound => String::from_str("Transaction not found"),
            TransactionError::InvalidState => String::from_str("Invalid transaction state"),
            TransactionError::DuplicateId => String::from_str("Transaction identity already in use"),
        }
    }
}

/// A recorded money movement between at most two wallets.
#[derive(Debug)]
pub struct Transaction {
    pub id: u128,
    pub debit_wallet_id: Option<u128>,
    pub credit_wallet_id: Option<u128>,
    pub amount: i64,
    pub currency: String,
    pub transaction_type: TransactionType,
    pub status: TransactionStatus,
    pub reference_id: Option<String>,
    pub metadata: Vec<MetaEntry>,
    pub created_at: i64,
    pub updated_at: i64,
}

impl Transaction {
    /// The record invariant: some wallet is named, two named wallets differ, and
    /// the amount is positive.
    pub open spec fn wf(&self) -> bool {
        &&& (self.debit_wallet_id is Some || self.credit_wallet_id is Some)
        &&& (self.debit_wallet_id is Some && self.credit_wallet_id is Some
            ==> self.debit_wallet_id != self.credit_wallet_id)
        &&& self.amount > 0
    }
}

/// What `uuid` prints for the identity `id` (hyphenated lowercase form).
pub uninterp spec fn uuid_text_of(id: u128) -> Seq<char>;

/// Relies on `uuid::Uuid::from_u128` and `Uuid`'s `Display`, which prints the
/// 36-character hyphenated lowercase form.
#[verifier::external_body]
fn uuid_text(id: u128) -> (r: String)
    ensures
        r@ == uuid_text_of(id),
        r@.len() == 36,
{
    uuid::Uuid::from_u128(id).to_string()
}

/// The reference of the reversal of the transaction `id`: `"reversal_<id>"`.
pub open spec fn reversal_reference_of(id: u128) -> Seq<char> {
    "reversal_"@ + uuid_text_of(id)
}

/// Builds the reference recorded on the reversal of transaction `id`.
pub fn reversal_reference(id: u128) -> (r: String)
    ensures
        r@ == reversal_reference_of(id),
{
    let text = uuid_text(id);
    let prefix = String::from_str("reversal_");
    prefix.concat(text.as_str())
}

/// The metadata key under which a reversal records its reason.
pub open spec fn reason_key() -> Seq<char> {
    "reverse_reason"@
}

/// The metadata of the reversal of a transaction with metadata `m`: `m` with the
/// reason recorded under `reverse_reason` when one is given.
pub open spec fn reversal_metadata(m: Seq<(Seq<char>, Seq<char>)>, reason: Option<Seq<char>>) -> Seq<
    (Seq<char>, Seq<char>),
> {
    match reason {
        Some(text) => set_key(m, reason_key(), text),
        None => m,
    }
}

/// Builds the metadata of the reversal of a transaction with metadata `m`.
pub fn reversal_metadata_of(m: &Vec<MetaEntry>, reason: Option<String>) -> (r: Vec<MetaEntry>)
    ensures
        meta_view(r@) == reversal_metadata(meta_view(m@), opt_view(reason)),
{
    let mut out = copy_metadata(m);
    match reason {
        Some(text) => {
            let key = String::from_str("reverse_reason");
            proof {
                reveal_strlit("reverse_reason");
            }
            put_entry(&mut out, MetaEntry { key, value: text });
        },
        None => {},
    }
    out
}

/// The view of an optional text.
pub open spec fn opt_view(s: Option<String>) -> Option<Seq<char>> {
    match s {
        Some(t) => Some(t@),
        None => None,
    }
}

/// `t` records exactly the given fields.
pub open spec fn tx_is(
    t: Transaction,
    id: u128,
    transaction_type: TransactionType,
    amount: i64,
    currency: Seq<char>,
    debit: Option<u128>,
    credit: Option<u128>,
    reference_id: Option<Seq<char>>,
    metadata: Seq<(Seq<char>, Seq<char>)>,
    status: TransactionStatus,
    created_at: i64,
    updated_at: i64,
) -> bool {
    &&& t.id == id
    &&& t.transaction_type == transaction_type
    &&& t.amount == amount
    &&& t.currency@ == currency
    &&& t.debit_wallet_id == debit
    &&& t.credit_wallet_id == credit
    &&& opt_view(t.reference_id) == reference_id
    &&& meta_view(t.metadata@) == metadata
    &&& t.status == status
    &&& t.created_at == created_at
    &&& t.updated_at == updated_at
}

/// Two transaction records agree on every field, texts by their views.
pub open spec fn same_tx(a: Transaction, b: Transaction) -> bool {
    tx_is(a, b.id, b.transaction_type, b.amount, b.currency@, b.debit_wallet_id, b.credit_wallet_id,
        opt_view(b.reference_id), meta_view(b.metadata@), b.status, b.created_at, b.updated_at)
}

impl Transaction {
    /// A copy of this record.
    pub fn duplicate(&self) -> (r: Transaction)
        ensures
            same_tx(r, *self),
            r.wf() == self.wf(),
    {
        let reference_id = match &self.reference_id {
            Some(t) => Some(t.clone()),
            None => None,
        };
        Transaction {
            id: self.id,
            debit_wallet_id: self.debit_wallet_id,
            credit_wallet_id: self.credit_wallet_id,
            amount: self.amount,
            currency: self.currency.clone(),
            transaction_type: self.transaction_type,
            status: self.status,
            reference_id,
            metadata: copy_metadata(&self.metadata),
            created_at: self.created_at,
            updated_at: self.updated_at,
        }
    }
}

} // verus!
