use vstd::prelude::*;
use crate::money::RATIO_TERM_MAX;
use crate::reconciliation::ReconciliationReport;
use crate::reserve::{
    ReserveAccount, ReserveError, ReserveOperationType, ReserveStatus, ReserveTransaction,
    ReserveTransactionStatus, reserve_delta_check, reserve_with_delta, entry_is, same_entry,
};
use crate::money::Ratio;
use crate::wallet::WalletStatus;
use crate::transaction::{
    InvalidReason, MetaEntry, Transaction, TransactionError, TransactionStatus, TransactionType,
    tx_is, same_tx, meta_view, opt_view, reversal_reference, reversal_reference_of,
    reversal_metadata, reversal_metadata_of, is_transition,
};
use crate::wallet::{Wallet, WalletError, credit_check, debit_check, delta_check, with_delta};

verus! {

/// Most rows of one kind (wallets or reserve accounts) the ledger holds, which
/// keeps every total below `2^95`.
pub const MAX_ROWS: usize = 0xffff_ffff;

/// Why the store refused a new row.
#[derive(Debug, Clone, Copy, PartialEq, Eq, Structural)]
pub enum StoreError {
    /// The identity is already taken.
    DuplicateId,
    /// The ledger holds `MAX_ROWS` rows of that kind.
    Full,
}

/// The ledger's rows: wallets, transactions, reserve accounts, the reserve's own
/// ledger, and the append-only reconciliation reports.
pub struct Ledger {
    pub wallets: Vec<Wallet>,
    pub transactions: Vec<Transaction>,
    pub reserves: Vec<ReserveAccount>,
    pub reserve_transactions: Vec<ReserveTransaction>,
    pub reports: Vec<ReconciliationReport>,
}

// ---- wallets as a sequence ----

pub open spec fn wallet_ids_unique(ws: Seq<Wallet>) -> bool {
    forall|i: int, j: int| 0 <= i < ws.len() && 0 <= j < ws.len() && i != j ==> ws[i].id != ws[j].id
}

pub open spec fn wallets_wf(ws: Seq<Wallet>) -> bool {
    &&& wallet_ids_unique(ws)
    &&& forall|i: int| 0 <= i < ws.len() ==> #[trigger] ws[i].balance >= 0
    &&& ws.len() <= MAX_ROWS
}

pub open spec fn has_wallet(ws: Seq<Wallet>, id: u128) -> bool {
    exists|i: int| 0 <= i < ws.len() && ws[i].id == id
}

/// The wallet with identity `id` (meaningful when `has_wallet(ws, id)`).
pub open spec fn wallet_of(ws: Seq<Wallet>, id: u128) -> Wallet {
    ws[choose|i: int| 0 <= i < ws.len() && ws[i].id == id]
}

/// `ws` with the balance of wallet `id` (if any is named) moved by `delta`.
pub open spec fn move_balance(ws: Seq<Wallet>, id: Option<u128>, delta: int, now: i64) -> Seq<Wallet> {
    match id {
        Some(target) => ws.map_values(
            |w: Wallet| if w.id == target { with_delta(w, delta, now) } else { w },
        ),
        None => ws,
    }
}

/// The wallets after a movement of `amount` from `debit` to `credit`.
pub open spec fn settle(ws: Seq<Wallet>, debit: Option<u128>, credit: Option<u128>, amount: i64, now: i64) -> Seq<Wallet> {
    move_balance(move_balance(ws, debit, -amount, now), credit, amount as int, now)
}

/// The first refusal of a movement of `amount` from `debit` to `credit` by the
/// wallets themselves, in the order the engine checks them.
pub open spec fn wallet_rejection(ws: Seq<Wallet>, debit: Option<u128>, credit: Option<u128>, amount: i64) -> Option<TransactionError> {
    if debit is Some && !has_wallet(ws, debit->0) {
        Some(TransactionError::InvalidTransaction(InvalidReason::DebitWalletNotFound))
    } else if debit is Some && debit_check(wallet_of(ws, debit->0), amount) is Err {
        Some(TransactionError::WalletError(debit_check(wallet_of(ws, debit->0), amount)->Err_0))
    } else if credit is Some && !has_wallet(ws, credit->0) {
        Some(TransactionError::InvalidTransaction(InvalidReason::CreditWalletNotFound))
    } else if credit is Some && credit_check(wallet_of(ws, credit->0), amount) is Err {
        Some(TransactionError::WalletError(credit_check(wallet_of(ws, credit->0), amount)->Err_0))
    } else if credit is Some && delta_check(wallet_of(ws, credit->0), amount) is Err {
        Some(TransactionError::WalletError(delta_check(wallet_of(ws, credit->0), amount)->Err_0))
    } else {
        None
    }
}

/// The checks made before the atomic unit is opened.
pub open spec fn request_rejection(debit: Option<u128>, credit: Option<u128>, amount: i64) -> Option<TransactionError> {
    if debit is None && credit is None {
        Some(TransactionError::InvalidTransaction(InvalidReason::NoWallet))
    } else if debit is Some && debit == credit {
        Some(TransactionError::InvalidTransaction(InvalidReason::SameWallet))
    } else if amount <= 0 {
        Some(TransactionError::InvalidAmount)
    } else {
        None
    }
}

// ---- transactions as a sequence ----

pub open spec fn tx_ids_unique(ts: Seq<Transaction>) -> bool {
    forall|i: int, j: int| 0 <= i < ts.len() && 0 <= j < ts.len() && i != j ==> ts[i].id != ts[j].id
}

pub open spec fn has_tx(ts: Seq<Transaction>, id: u128) -> bool {
    exists|i: int| 0 <= i < ts.len() && ts[i].id == id
}

pub open spec fn tx_of(ts: Seq<Transaction>, id: u128) -> Transaction {
    ts[choose|i: int| 0 <= i < ts.len() && ts[i].id == id]
}

/// The full refusal of a new transaction, in the order of the checks.
pub open spec fn create_rejection(l: Ledger, id: u128, amount: i64, debit: Option<u128>, credit: Option<u128>) -> Option<TransactionError> {
    if request_rejection(debit, credit, amount) is Some {
        request_rejection(debit, credit, amount)
    } else if has_tx(l.transactions@, id) {
        Some(TransactionError::DuplicateId)
    } else {
        wallet_rejection(l.wallets@, debit, credit, amount)
    }
}

// ---- reserves as a sequence ----

pub open spec fn reserve_ids_unique(rs: Seq<ReserveAccount>) -> bool {
    forall|i: int, j: int| 0 <= i < rs.len() && 0 <= j < rs.len() && i != j ==> rs[i].id != rs[j].id
}

pub open spec fn reserves_wf(rs: Seq<ReserveAccount>) -> bool {
    &&& reserve_ids_unique(rs)
    &&& forall|i: int| 0 <= i < rs.len() ==> #[trigger] rs[i].balance >= 0
    &&& rs.len() <= MAX_ROWS
}

pub open spec fn entry_ids_unique(es: Seq<ReserveTransaction>) -> bool {
    forall|i: int, j: int| 0 <= i < es.len() && 0 <= j < es.len() && i != j ==> es[i].id != es[j].id
}

/// `ts` with transaction `id` marked Reversed at time `now`.
pub open spec fn mark_reversed(ts: Seq<Transaction>, id: u128, now: i64) -> Seq<Transaction> {
    ts.map_values(
        |t: Transaction|
            if t.id == id {
                Transaction { status: TransactionStatus::Reversed, updated_at: now, ..t }
            } else {
                t
            },
    )
}

/// The refusal of the reversal of transaction `tx_id` by a new transaction `reversal_id`.
pub open spec fn reverse_rejection(l: Ledger, tx_id: u128, reversal_id: u128) -> Option<TransactionError> {
    if !has_tx(l.transactions@, tx_id) {
        Some(TransactionError::NotFound)
    } else if tx_of(l.transactions@, tx_id).status != TransactionStatus::Completed {
        Some(TransactionError::InvalidState)
    } else {
        let t = tx_of(l.transactions@, tx_id);
        create_rejection(l, reversal_id, t.amount, t.credit_wallet_id, t.debit_wallet_id)
    }
}

pub open spec fn has_reserve(rs: Seq<ReserveAccount>, id: u128) -> bool {
    exists|i: int| 0 <= i < rs.len() && rs[i].id == id
}

pub open spec fn reserve_of(rs: Seq<ReserveAccount>, id: u128) -> ReserveAccount {
    rs[choose|i: int| 0 <= i < rs.len() && rs[i].id == id]
}

pub open spec fn has_entry(es: Seq<ReserveTransaction>, id: u128) -> bool {
    exists|i: int| 0 <= i < es.len() && es[i].id == id
}

/// `rs` with the balance of reserve account `id` moved by `delta`.
pub open spec fn move_reserve(rs: Seq<ReserveAccount>, id: u128, delta: int, now: i64) -> Seq<ReserveAccount> {
    rs.map_values(|a: ReserveAccount| if a.id == id { reserve_with_delta(a, delta, now) } else { a })
}

/// The refusal of a reserve operation of `amount` on account `account_id`
/// recorded as entry `entry_id`.
pub open spec fn reserve_rejection(l: Ledger, entry_id: u128, account_id: u128, amount: i64) -> Option<ReserveError> {
    if has_entry(l.reserve_transactions@, entry_id) {
        Some(ReserveError::DuplicateId)
    } else if !has_reserve(l.reserves@, account_id) {
        Some(ReserveError::NotFound)
    } else if reserve_delta_check(reserve_of(l.reserves@, account_id), amount) is Err {
        Some(reserve_delta_check(reserve_of(l.reserves@, account_id), amount)->Err_0)
    } else {
        None
    }
}

/// The sum of the balances of the Active wallets.
pub open spec fn wallet_total(ws: Seq<Wallet>) -> int
    decreases ws.len(),
{
    if ws.len() == 0 {
        0
    } else {
        wallet_total(ws.drop_last()) + if ws.last().status == WalletStatus::Active {
            ws.last().balance as int
        } else {
            0
        }
    }
}

/// The sum of the balances of the Active reserve accounts.
pub open spec fn reserve_total(rs: Seq<ReserveAccount>) -> int
    decreases rs.len(),
{
    if rs.len() == 0 {
        0
    } else {
        reserve_total(rs.drop_last()) + if rs.last().status == ReserveStatus::Active {
            rs.last().balance as int
        } else {
            0
        }
    }
}

/// Reserve assets over wallet liabilities, `1` when there are no liabilities.
pub open spec fn ratio_of(wallet_total: int, reserve_total: int) -> Ratio {
    if wallet_total == 0 {
        Ratio { numerator: 1, denominator: 1 }
    } else {
        Ratio { numerator: reserve_total as i128, denominator: wallet_total as i128 }
    }
}

/// Whether `i` is the earliest-created Active reserve account (the first of
/// equally early ones).
pub open spec fn is_earliest_active(rs: Seq<ReserveAccount>, i: int) -> bool {
    &&& 0 <= i < rs.len()
    &&& rs[i].status == ReserveStatus::Active
    &&& forall|j: int|
        0 <= j < rs.len() && #[trigger] rs[j].status == ReserveStatus::Active ==> rs[i].created_at
            < rs[j].created_at || (rs[i].created_at == rs[j].created_at && i <= j)
}

/// The reserve account that receives corrective entries: the earliest-created
/// Active one.
pub open spec fn correction_target(rs: Seq<ReserveAccount>) -> Option<u128> {
    if exists|i: int| is_earliest_active(rs, i) {
        Some(rs[choose|i: int| is_earliest_active(rs, i)].id)
    } else {
        None
    }
}

impl Ledger {
    /// The ledger invariant: identities are unique within each kind of row, no
    /// wallet or reserve balance is negative, every transaction names a wallet,
    /// two different wallets when it names two, and a positive amount.
    pub open spec fn wf(&self) -> bool {
        &&& wallets_wf(self.wallets@)
        &&& reserves_wf(self.reserves@)
        &&& tx_ids_unique(self.transactions@)
        &&& forall|i: int| 0 <= i < self.transactions@.len() ==> #[trigger] self.transactions@[i].wf()
        &&& entry_ids_unique(self.reserve_transactions@)
    }

    /// An empty ledger.
    pub fn new() -> (r: Ledger)
        ensures
            r.wf(),
            r.wallets@.len() == 0,
            r.transactions@.len() == 0,
            r.reserves@.len() == 0,
            r.reserve_transactions@.len() == 0,
            r.reports@.len() == 0,
    {
        Ledger {
            wallets: Vec::new(),
            transactions: Vec::new(),
            reserves: Vec::new(),
            reserve_transactions: Vec::new(),
            reports: Vec::new(),
        }
    }

    /// The position of the wallet with identity `id`.
    pub fn wallet_index(&self, id: u128) -> (r: Option<usize>)
        ensures
            r is None <==> !has_wallet(self.wallets@, id),
            r matches Some(i) ==> i < self.wallets@.len() && self.wallets@[i as int].id == id,
    {
        let mut i: usize = 0;
        while i < self.wallets.len()
            invariant
                i <= self.wallets@.len(),
                forall|j: int| 0 <= j < i ==> self.wallets@[j].id != id,
            decreases self.wallets@.len() - i,
        {
            if self.wallets[i].id == id {
                return Some(i);
            }
            i = i + 1;
        }
        None
    }

    /// The position of the transaction with identity `id`.
    pub fn transaction_index(&self, id: u128) -> (r: Option<usize>)
        ensures
            r is None <==> !has_tx(self.transactions@, id),
            r matches Some(i) ==> i < self.transactions@.len() && self.transactions@[i as int].id == id,
    {
        let mut i: usize = 0;
        while i < self.transactions.len()
            invariant
                i <= self.transactions@.len(),
                forall|j: int| 0 <= j < i ==> self.transactions@[j].id != id,
            decreases self.transactions@.len() - i,
        {
            if self.transactions[i].id == id {
                return Some(i);
            }
            i = i + 1;
        }
        None
    }

    /// Adds a new, empty, Active wallet.
    pub fn open_wallet(&mut self, id: u128, user_id: u128, currency: String, now: i64) -> (r: Result<(), StoreError>)
        requires
            old(self).wf(),
        ensures
            final(self).wf(),
            r == (if has_wallet(old(self).wallets@, id) {
                Err::<(), StoreError>(StoreError::DuplicateId)
            } else if old(self).wallets@.len() >= MAX_ROWS {
                Err(StoreError::Full)
            } else {
                Ok(())
            }),
            r is Err ==> *final(self) == *old(self),
            r is Ok ==> final(self).wallets@ == old(self).wallets@.push(Wallet::new_spec(id, user_id, currency, now)),
            r is Ok ==> final(self).transactions == old(self).transactions
                && final(self).reserves == old(self).reserves
                && final(self).reserve_transactions == old(self).reserve_transactions
                && final(self).reports == old(self).reports,
    {
        if self.wallet_index(id).is_some() {
            return Err(StoreError::DuplicateId);
        }
        if self.wallets.len() >= MAX_ROWS {
            return Err(StoreError::Full);
        }
        let w = Wallet::new(id, user_id, currency, now);
        self.wallets.push(w);
        Ok(())
    }

    /// The balance of the wallet `id`, if it exists.
    pub fn get_wallet_balance(&self, id: u128) -> (r: Option<i64>)
        requires
            self.wf(),
        ensures
            r is None <==> !has_wallet(self.wallets@, id),
            r matches Some(b) ==> b == wallet_of(self.wallets@, id).balance && b >= 0,
    {
        match self.wallet_index(id) {
            Some(i) => {
                proof {
                    self.lemma_wallet_of(i as int, id);
                }
                Some(self.wallets[i].balance)
            },
            None => None,
        }
    }

    /// Creates a transaction as one atomic unit: validates the request, debits the
    /// debit wallet and credits the credit wallet (each pre-validated and then
    /// changed under the balance rules), and records the transaction as Completed.
    /// On any refusal nothing changes: no wallet and no record.
    pub fn create_transaction(
        &mut self,
        id: u128,
        transaction_type: TransactionType,
        amount: i64,
        currency: String,
        debit_wallet_id: Option<u128>,
        credit_wallet_id: Option<u128>,
        reference_id: Option<String>,
        metadata: Vec<MetaEntry>,
        now: i64,
    ) -> (r: Result<Transaction, TransactionError>)
        requires
            old(self).wf(),
        ensures
            final(self).wf(),
            match create_rejection(*old(self), id, amount, debit_wallet_id, credit_wallet_id) {
                Some(e) => r == Err::<Transaction, TransactionError>(e) && *final(self) == *old(self),
                None => {
                    &&& r is Ok
                    &&& tx_is(r->Ok_0, id, transaction_type, amount, currency@, debit_wallet_id,
                        credit_wallet_id, opt_view(reference_id), meta_view(metadata@),
                        TransactionStatus::Completed, now, now)
                    &&& final(self).wallets@ == settle(old(self).wallets@, debit_wallet_id,
                        credit_wallet_id, amount, now)
                    &&& final(self).transactions@.len() == old(self).transactions@.len() + 1
                    &&& final(self).transactions@.drop_last() == old(self).transactions@
                    &&& same_tx(final(self).transactions@.last(), r->Ok_0)
                    &&& final(self).reserves == old(self).reserves
                    &&& final(self).reserve_transactions == old(self).reserve_transactions
                    &&& final(self).reports == old(self).reports
                },
            },
    {
        if debit_wallet_id.is_none() && credit_wallet_id.is_none() {
            return Err(TransactionError::InvalidTransaction(InvalidReason::NoWallet));
        }
        if debit_wallet_id.is_some() && debit_wallet_id == credit_wallet_id {
            return Err(TransactionError::InvalidTransaction(InvalidReason::SameWallet));
        }
        if amount <= 0 {
            return Err(TransactionError::InvalidAmount);
        }
        if self.transaction_index(id).is_some() {
            return Err(TransactionError::DuplicateId);
        }
        let ghost ws = self.wallets@;
        // Debit side: pre-validate, then apply the change to a copy of the row.
        let mut debit_plan: Option<(usize, Wallet)> = None;
        let ghost mut dpos: int = -1;
        if let Some(d) = debit_wallet_id {
            let di = match self.wallet_index(d) {
                Some(i) => i,
                None => {
                    return Err(TransactionError::InvalidTransaction(InvalidReason::DebitWalletNotFound));
                },
            };
            proof {
                lemma_wallet_of(ws, di as int, d);
            }
            let mut dw = self.wallets[di].duplicate();
            match dw.can_debit(amount) {
                Ok(()) => {},
                Err(e) => {
                    return Err(TransactionError::WalletError(e));
                },
            }
            let applied = dw.update_balance(-amount, now);
            assert(applied is Ok);
            debit_plan = Some((di, dw));
            proof {
                dpos = di as int;
            }
        }
        // Credit side, likewise.
        let mut credit_plan: Option<(usize, Wallet)> = None;
        if let Some(c) = credit_wallet_id {
            let ci = match self.wallet_index(c) {
                Some(i) => i,
                None => {
                    return Err(TransactionError::InvalidTransaction(InvalidReason::CreditWalletNotFound));
                },
            };
            proof {
                lemma_wallet_of(ws, ci as int, c);
            }
            let mut cw = self.wallets[ci].duplicate();
            match cw.can_credit(amount) {
                Ok(()) => {},
                Err(e) => {
                    return Err(TransactionError::WalletError(e));
                },
            }
            match cw.update_balance(amount, now) {
                Ok(()) => {},
                Err(e) => {
                    return Err(TransactionError::WalletError(e));
                },
            }
            credit_plan = Some((ci, cw));
        }
        // Commit: both rows change together with the new record.
        if let Some((di, dw)) = debit_plan {
            self.wallets.set(di, dw);
        }
        let ghost mid = self.wallets@;
        proof {
            assert(mid =~= move_balance(ws, debit_wallet_id, -amount, now));
        }
        if let Some((ci, cw)) = credit_plan {
            proof {
                if debit_wallet_id is Some {
                    assert(dpos != ci);
                }
                assert(mid[ci as int] == ws[ci as int]);
            }
            self.wallets.set(ci, cw);
        }
        proof {
            assert(self.wallets@ =~= move_balance(mid, credit_wallet_id, amount as int, now));
            assert(wallet_ids_unique(self.wallets@)) by {
                assert forall|i: int, j: int|
                    0 <= i < self.wallets@.len() && 0 <= j < self.wallets@.len() && i != j
                    implies self.wallets@[i].id != self.wallets@[j].id by {
                    assert(self.wallets@[i].id == ws[i].id);
                    assert(self.wallets@[j].id == ws[j].id);
                }
            }
            assert forall|i: int| 0 <= i < self.wallets@.len() implies #[trigger] self.wallets@[i].balance >= 0 by {
                assert(ws[i].balance >= 0);
            }
        }
        let record = Transaction {
            id,
            debit_wallet_id,
            credit_wallet_id,
            amount,
            currency,
            transaction_type,
            status: TransactionStatus::Completed,
            reference_id,
            metadata,
            created_at: now,
            updated_at: now,
        };
        let result = record.duplicate();
        let ghost ts = self.transactions@;
        self.transactions.push(record);
        proof {
            assert(self.transactions@.drop_last() =~= ts);
            assert forall|i: int, j: int|
                0 <= i < self.transactions@.len() && 0 <= j < self.transactions@.len() && i != j
                implies self.transactions@[i].id != self.transactions@[j].id by {
                if i < ts.len() && j < ts.len() {
                    assert(ts[i].id != ts[j].id);
                } else if i < ts.len() {
                    assert(ts[i].id != id);
                } else {
                    assert(ts[j].id != id);
                }
            }
            assert forall|i: int| 0 <= i < self.transactions@.len() implies #[trigger] self.transactions@[i].wf() by {
                if i < ts.len() {
                    assert(ts[i].wf());
                }
            }
        }
        Ok(result)
    }

    /// Reverses a Completed transaction: a new Refund transaction with the wallets
    /// swapped, the same amount and currency, reference `reversal_<id>` and the
    /// reason in its metadata, is created through `create_transaction`; then the
    /// original is marked Reversed. On any refusal nothing changes.
    pub fn reverse_transaction(&mut self, transaction_id: u128, reversal_id: u128, reason: Option<String>, now: i64) -> (r: Result<Transaction, TransactionError>)
        requires
            old(self).wf(),
        ensures
            final(self).wf(),
            match reverse_rejection(*old(self), transaction_id, reversal_id) {
                Some(e) => r == Err::<Transaction, TransactionError>(e) && *final(self) == *old(self),
                None => {
                    let t = tx_of(old(self).transactions@, transaction_id);
                    &&& r is Ok
                    &&& tx_is(r->Ok_0, reversal_id, TransactionType::Refund, t.amount, t.currency@,
                        t.credit_wallet_id, t.debit_wallet_id, Some(reversal_reference_of(transaction_id)),
                        reversal_metadata(meta_view(t.metadata@), opt_view(reason)),
                        TransactionStatus::Completed, now, now)
                    &&& final(self).wallets@ == settle(old(self).wallets@, t.credit_wallet_id,
                        t.debit_wallet_id, t.amount, now)
                    &&& final(self).transactions@.len() == old(self).transactions@.len() + 1
                    &&& final(self).transactions@.drop_last() == mark_reversed(old(self).transactions@, transaction_id, now)
                    &&& same_tx(final(self).transactions@.last(), r->Ok_0)
                    &&& final(self).reserves == old(self).reserves
                    &&& final(self).reserve_transactions == old(self).reserve_transactions
                    &&& final(self).reports == old(self).reports
                },
            },
    {
        let k = match self.transaction_index(transaction_id) {
            Some(k) => k,
            None => {
                return Err(TransactionError::NotFound);
            },
        };
        proof {
            lemma_tx_of(self.transactions@, k as int, transaction_id);
        }
        if self.transactions[k].status != TransactionStatus::Completed {
            return Err(TransactionError::InvalidState);
        }
        let amount = self.transactions[k].amount;
        let currency = self.transactions[k].currency.clone();
        let debit = self.transactions[k].credit_wallet_id;
        let credit = self.transactions[k].debit_wallet_id;
        let reference = reversal_reference(transaction_id);
        let metadata = reversal_metadata_of(&self.transactions[k].metadata, reason);
        let ghost before = *self;
        let reversal = self.create_transaction(
            reversal_id,
            TransactionType::Refund,
            amount,
            currency,
            debit,
            credit,
            Some(reference),
            metadata,
            now,
        );
        match reversal {
            Ok(rev) => {
                let ghost ts = self.transactions@;
                assert(ts[k as int] == before.transactions@[k as int]);
                self.transactions[k].status = TransactionStatus::Reversed;
                self.transactions[k].updated_at = now;
                proof {
                    let old_ts = before.transactions@;
                    assert(self.transactions@.drop_last() =~= mark_reversed(old_ts, transaction_id, now)) by {
                        assert forall|i: int| 0 <= i < old_ts.len() implies
                            #[trigger] self.transactions@.drop_last()[i] == mark_reversed(old_ts, transaction_id, now)[i] by {
                            if i != k {
                                assert(old_ts[i].id != transaction_id);
                            }
                        }
                    }
                    assert forall|i: int, j: int|
                        0 <= i < self.transactions@.len() && 0 <= j < self.transactions@.len() && i != j
                        implies self.transactions@[i].id != self.transactions@[j].id by {
                        assert(self.transactions@[i].id == ts[i].id);
                        assert(self.transactions@[j].id == ts[j].id);
                    }
                    assert forall|i: int| 0 <= i < self.transactions@.len() implies #[trigger] self.transactions@[i].wf() by {
                        assert(ts[i].wf());
                    }
                }
                Ok(rev)
            },
            Err(e) => Err(e),
        }
    }

    /// The position of the reserve account with identity `id`.
    pub fn reserve_index(&self, id: u128) -> (r: Option<usize>)
        ensures
            r is None <==> !has_reserve(self.reserves@, id),
            r matches Some(i) ==> i < self.reserves@.len() && self.reserves@[i as int].id == id,
    {
        let mut i: usize = 0;
        while i < self.reserves.len()
            invariant
                i <= self.reserves@.len(),
                forall|j: int| 0 <= j < i ==> self.reserves@[j].id != id,
            decreases self.reserves@.len() - i,
        {
            if self.reserves[i].id == id {
                return Some(i);
            }
            i = i + 1;
        }
        None
    }

    /// Whether a reserve ledger entry has identity `id`.
    pub fn has_reserve_entry(&self, id: u128) -> (r: bool)
        ensures
            r == has_entry(self.reserve_transactions@, id),
    {
        let mut i: usize = 0;
        while i < self.reserve_transactions.len()
            invariant
                i <= self.reserve_transactions@.len(),
                forall|j: int| 0 <= j < i ==> self.reserve_transactions@[j].id != id,
            decreases self.reserve_transactions@.len() - i,
        {
            if self.reserve_transactions[i].id == id {
                return true;
            }
            i = i + 1;
        }
        false
    }

    /// Adds a new, empty, Active reserve account.
    pub fn open_reserve(&mut self, id: u128, bank_name: String, account_number: String, currency: String, now: i64) -> (r: Result<(), StoreError>)
        requires
            old(self).wf(),
        ensures
            final(self).wf(),
            r == (if has_reserve(old(self).reserves@, id) {
                Err::<(), StoreError>(StoreError::DuplicateId)
            } else if old(self).reserves@.len() >= MAX_ROWS {
                Err(StoreError::Full)
            } else {
                Ok(())
            }),
            r is Err ==> *final(self) == *old(self),
            r is Ok ==> final(self).reserves@.len() == old(self).reserves@.len() + 1
                && final(self).reserves@.drop_last() == old(self).reserves@
                && final(self).reserves@.last() == (ReserveAccount {
                    id,
                    bank_name,
                    account_number,
                    currency,
                    balance: 0,
                    status: ReserveStatus::Active,
                    created_at: now,
                    updated_at: now,
                }),
            r is Ok ==> final(self).wallets == old(self).wallets
                && final(self).transactions == old(self).transactions
                && final(self).reserve_transactions == old(self).reserve_transactions
                && final(self).reports == old(self).reports,
    {
        if self.reserve_index(id).is_some() {
            return Err(StoreError::DuplicateId);
        }
        if self.reserves.len() >= MAX_ROWS {
            return Err(StoreError::Full);
        }
        let ghost rs = self.reserves@;
        let a = ReserveAccount::new(id, bank_name, account_number, currency, now);
        self.reserves.push(a);
        proof {
            assert(self.reserves@.drop_last() =~= rs);
        }
        Ok(())
    }

    /// Changes the balance of a reserve account and records the paired reserve
    /// ledger entry, as one atomic step. On any refusal nothing changes.
    pub fn record_reserve_operation(
        &mut self,
        entry_id: u128,
        reserve_account_id: u128,
        amount: i64,
        operation_type: ReserveOperationType,
        transaction_id: Option<u128>,
        reference_id: Option<String>,
        metadata: Vec<MetaEntry>,
        now: i64,
    ) -> (r: Result<ReserveTransaction, ReserveError>)
        requires
            old(self).wf(),
        ensures
            final(self).wf(),
            match reserve_rejection(*old(self), entry_id, reserve_account_id, amount) {
                Some(e) => r == Err::<ReserveTransaction, ReserveError>(e) && *final(self) == *old(self),
                None => {
                    &&& r is Ok
                    &&& entry_is(r->Ok_0, entry_id, reserve_account_id, transaction_id, amount,
                        operation_type, opt_view(reference_id), meta_view(metadata@), now)
                    &&& final(self).reserves@ == move_reserve(old(self).reserves@, reserve_account_id, amount as int, now)
                    &&& final(self).reserve_transactions@.len() == old(self).reserve_transactions@.len() + 1
                    &&& final(self).reserve_transactions@.drop_last() == old(self).reserve_transactions@
                    &&& same_entry(final(self).reserve_transactions@.last(), r->Ok_0)
                    &&& final(self).wallets == old(self).wallets
                    &&& final(self).transactions == old(self).transactions
                    &&& final(self).reports == old(self).reports
                },
            },
    {
        if self.has_reserve_entry(entry_id) {
            return Err(ReserveError::DuplicateId);
        }
        let i = match self.reserve_index(reserve_account_id) {
            Some(i) => i,
            None => {
                return Err(ReserveError::NotFound);
            },
        };
        let ghost rs = self.reserves@;
        proof {
            lemma_reserve_of(rs, i as int, reserve_account_id);
        }
        let mut row = self.reserves[i].duplicate();
        match row.update_balance(amount, now) {
            Ok(()) => {},
            Err(e) => {
                return Err(e);
            },
        }
        self.reserves.set(i, row);
        proof {
            assert(self.reserves@ =~= move_reserve(rs, reserve_account_id, amount as int, now)) by {
                assert forall|j: int| 0 <= j < rs.len() implies
                    #[trigger] self.reserves@[j] == move_reserve(rs, reserve_account_id, amount as int, now)[j] by {
                    if j != i {
                        assert(rs[j].id != reserve_account_id);
                    }
                }
            }
            assert forall|a: int, b: int|
                0 <= a < self.reserves@.len() && 0 <= b < self.reserves@.len() && a != b
                implies self.reserves@[a].id != self.reserves@[b].id by {
                assert(self.reserves@[a].id == rs[a].id);
                assert(self.reserves@[b].id == rs[b].id);
            }
            assert forall|j: int| 0 <= j < self.reserves@.len() implies #[trigger] self.reserves@[j].balance >= 0 by {
                assert(rs[j].balance >= 0);
            }
        }
        let entry = ReserveTransaction {
            id: entry_id,
            reserve_account_id,
            transaction_id,
            amount,
            operation_type,
            status: ReserveTransactionStatus::Completed,
            reference_id,
            metadata,
            created_at: now,
            updated_at: now,
        };
        let result = entry.duplicate();
        let ghost es = self.reserve_transactions@;
        self.reserve_transactions.push(entry);
        proof {
            assert(self.reserve_transactions@.drop_last() =~= es);
            assert forall|a: int, b: int|
                0 <= a < self.reserve_transactions@.len() && 0 <= b < self.reserve_transactions@.len() && a != b
                implies self.reserve_transactions@[a].id != self.reserve_transactions@[b].id by {
                if a < es.len() && b < es.len() {
                    assert(es[a].id != es[b].id);
                } else if a < es.len() {
                    assert(es[a].id != entry_id);
                } else {
                    assert(es[b].id != entry_id);
                }
            }
        }
        Ok(result)
    }

    /// The totals of Active wallet balances and of Active reserve balances, read
    /// from one snapshot.
    pub fn active_totals(&self) -> (r: (i128, i128))
        requires
            self.wf(),
        ensures
            r.0 == wallet_total(self.wallets@),
            r.1 == reserve_total(self.reserves@),
            0 <= r.0 <= RATIO_TERM_MAX,
            0 <= r.1 <= RATIO_TERM_MAX,
    {
        let mut wt: i128 = 0;
        let mut i: usize = 0;
        while i < self.wallets.len()
            invariant
                self.wf(),
                i <= self.wallets@.len(),
                wt == wallet_total(self.wallets@.subrange(0, i as int)),
                0 <= wt <= i * (i64::MAX as int),
            decreases self.wallets@.len() - i,
        {
            proof {
                assert(self.wallets@.subrange(0, i + 1).drop_last() =~= self.wallets@.subrange(0, i as int));
                assert(self.wallets@[i as int].balance >= 0);
                assert(i * (i64::MAX as int) + i64::MAX == (i + 1) * (i64::MAX as int)) by (nonlinear_arith);
                assert((i + 1) * (i64::MAX as int) <= MAX_ROWS * (i64::MAX as int)) by (nonlinear_arith)
                    requires i + 1 <= MAX_ROWS;
            }
            if self.wallets[i].status == WalletStatus::Active {
                wt = wt + self.wallets[i].balance as i128;
            }
            i = i + 1;
        }
        proof {
            assert(self.wallets@.subrange(0, i as int) =~= self.wallets@);
            assert(i * (i64::MAX as int) <= MAX_ROWS * (i64::MAX as int)) by (nonlinear_arith)
                requires i <= MAX_ROWS;
        }
        let mut rt: i128 = 0;
        let mut j: usize = 0;
        while j < self.reserves.len()
            invariant
                self.wf(),
                j <= self.reserves@.len(),
                rt == reserve_total(self.reserves@.subrange(0, j as int)),
                0 <= rt <= j * (i64::MAX as int),
            decreases self.reserves@.len() - j,
        {
            proof {
                assert(self.reserves@.subrange(0, j + 1).drop_last() =~= self.reserves@.subrange(0, j as int));
                assert(self.reserves@[j as int].balance >= 0);
                assert(j * (i64::MAX as int) + i64::MAX == (j + 1) * (i64::MAX as int)) by (nonlinear_arith);
                assert((j + 1) * (i64::MAX as int) <= MAX_ROWS * (i64::MAX as int)) by (nonlinear_arith)
                    requires j + 1 <= MAX_ROWS;
            }
            if self.reserves[j].status == ReserveStatus::Active {
                rt = rt + self.reserves[j].balance as i128;
            }
            j = j + 1;
        }
        proof {
            assert(self.reserves@.subrange(0, j as int) =~= self.reserves@);
            assert(j * (i64::MAX as int) <= MAX_ROWS * (i64::MAX as int)) by (nonlinear_arith)
                requires j <= MAX_ROWS;
        }
        (wt, rt)
    }

    /// The reserve ratio: Active reserve total over Active wallet total, `1` when
    /// the wallet total is zero.
    pub fn reserve_ratio(&self) -> (r: Ratio)
        requires
            self.wf(),
        ensures
            r == ratio_of(wallet_total(self.wallets@), reserve_total(self.reserves@)),
            r.wf(),
    {
        let (wt, rt) = self.active_totals();
        if wt == 0 {
            Ratio::one()
        } else {
            Ratio { numerator: rt, denominator: wt }
        }
    }

    /// The reserve ratio, refused with `ReserveRatioError` when it is below 1.
    /// Reads only.
    pub fn check_reserve_ratio(&self) -> (r: Result<Ratio, ReserveError>)
        requires
            self.wf(),
        ensures
            ({
                let ratio = ratio_of(wallet_total(self.wallets@), reserve_total(self.reserves@));
                if ratio.spec_lt(Ratio { numerator: 1, denominator: 1 }) {
                    r == Err::<Ratio, ReserveError>(ReserveError::ReserveRatioError(ratio))
                } else {
                    r == Ok::<Ratio, ReserveError>(ratio)
                }
            }),
            r matches Ok(x) ==> x.wf(),
            r matches Err(e) ==> e.wf(),
    {
        let ratio = self.reserve_ratio();
        if ratio.is_below(&Ratio::one()) {
            Err(ReserveError::ReserveRatioError(ratio))
        } else {
            Ok(ratio)
        }
    }

    /// The position of the earliest-created Active reserve account.
    pub fn earliest_active_reserve(&self) -> (r: Option<usize>)
        ensures
            r is None <==> correction_target(self.reserves@) is None,
            r matches Some(i) ==> is_earliest_active(self.reserves@, i as int)
                && correction_target(self.reserves@) == Some(self.reserves@[i as int].id),
    {
        let ghost rs = self.reserves@;
        let mut best: Option<usize> = None;
        let mut i: usize = 0;
        while i < self.reserves.len()
            invariant
                rs == self.reserves@,
                i <= rs.len(),
                best matches Some(b) ==> b < i && rs[b as int].status == ReserveStatus::Active
                    && forall|j: int| 0 <= j < i && #[trigger] rs[j].status == ReserveStatus::Active
                        ==> rs[b as int].created_at < rs[j].created_at
                            || (rs[b as int].created_at == rs[j].created_at && b <= j),
                best is None ==> forall|j: int| 0 <= j < i ==> #[trigger] rs[j].status != ReserveStatus::Active,
            decreases rs.len() - i,
        {
            if self.reserves[i].status == ReserveStatus::Active {
                match best {
                    None => {
                        best = Some(i);
                    },
                    Some(b) => {
                        if self.reserves[i].created_at < self.reserves[b].created_at {
                            best = Some(i);
                        }
                    },
                }
            }
            i = i + 1;
        }
        match best {
            Some(b) => {
                proof {
                    assert(is_earliest_active(rs, b as int));
                    let k = choose|k: int| is_earliest_active(rs, k);
                    lemma_earliest_unique(rs, b as int, k);
                }
            },
            None => {
                proof {
                    assert forall|k: int| !is_earliest_active(rs, k) by {
                        if 0 <= k < rs.len() {
                            assert(rs[k].status != ReserveStatus::Active);
                        }
                    }
                }
            },
        }
        best
    }

    /// Freezes the wallet `id`: only an Active wallet may be frozen.
    pub fn freeze_wallet(&mut self, id: u128, now: i64) -> (r: Result<(), WalletError>)
        requires
            old(self).wf(),
        ensures
            final(self).wf(),
            !has_wallet(old(self).wallets@, id) ==> r == Err::<(), WalletError>(WalletError::NotFound),
            has_wallet(old(self).wallets@, id) && wallet_of(old(self).wallets@, id).status != WalletStatus::Active
                ==> r == Err::<(), WalletError>(WalletError::InactiveWallet),
            has_wallet(old(self).wallets@, id) && wallet_of(old(self).wallets@, id).status == WalletStatus::Active
                ==> r is Ok,
            r is Err ==> *final(self) == *old(self),
            r is Ok ==> has_wallet(old(self).wallets@, id) && wallet_of(old(self).wallets@, id).status == WalletStatus::Active
                && final(self).wallets@ == old(self).wallets@.map_values(
                    |w: Wallet| if w.id == id { Wallet { status: WalletStatus::Frozen, updated_at: now, ..w } } else { w },
                )
                && final(self).transactions == old(self).transactions
                && final(self).reserves == old(self).reserves
                && final(self).reserve_transactions == old(self).reserve_transactions
                && final(self).reports == old(self).reports,
    {
        let i = match self.wallet_index(id) {
            Some(i) => i,
            None => {
                return Err(WalletError::NotFound);
            },
        };
        let ghost ws = self.wallets@;
        proof {
            lemma_wallet_of(ws, i as int, id);
        }
        if self.wallets[i].status != WalletStatus::Active {
            return Err(WalletError::InactiveWallet);
        }
        self.wallets[i].status = WalletStatus::Frozen;
        self.wallets[i].updated_at = now;
        proof {
            assert forall|j: int| 0 <= j < ws.len() && j != i implies ws[j].id != id by {}
            assert forall|a: int, b: int|
                0 <= a < self.wallets@.len() && 0 <= b < self.wallets@.len() && a != b
                implies self.wallets@[a].id != self.wallets@[b].id by {
                assert(self.wallets@[a].id == ws[a].id);
                assert(self.wallets@[b].id == ws[b].id);
            }
            assert forall|j: int| 0 <= j < self.wallets@.len() implies #[trigger] self.wallets@[j].balance >= 0 by {
                assert(ws[j].balance >= 0);
            }
        }
        Ok(())
    }

    /// Moves transaction `id` to `status`, allowed only along the transaction
    /// state machine (see `is_transition`).
    pub fn update_transaction_status(&mut self, id: u128, status: TransactionStatus, now: i64) -> (r: Result<(), TransactionError>)
        requires
            old(self).wf(),
        ensures
            final(self).wf(),
            r == (if !has_tx(old(self).transactions@, id) {
                Err::<(), TransactionError>(TransactionError::NotFound)
            } else if !is_transition(tx_of(old(self).transactions@, id).status, status) {
                Err(TransactionError::InvalidState)
            } else {
                Ok(())
            }),
            r is Err ==> *final(self) == *old(self),
            r is Ok ==> final(self).transactions@ == old(self).transactions@.map_values(
                    |t: Transaction| if t.id == id { Transaction { status, updated_at: now, ..t } } else { t },
                )
                && final(self).wallets == old(self).wallets
                && final(self).reserves == old(self).reserves
                && final(self).reserve_transactions == old(self).reserve_transactions
                && final(self).reports == old(self).reports,
    {
        let k = match self.transaction_index(id) {
            Some(k) => k,
            None => {
                return Err(TransactionError::NotFound);
            },
        };
        let ghost ts = self.transactions@;
        proof {
            lemma_tx_of(ts, k as int, id);
        }
        if !self.transactions[k].status.can_transition_to(status) {
            return Err(TransactionError::InvalidState);
        }
        self.transactions[k].status = status;
        self.transactions[k].updated_at = now;
        proof {
            assert(self.transactions@ =~= ts.map_values(
                |t: Transaction| if t.id == id { Transaction { status, updated_at: now, ..t } } else { t },
            )) by {
                assert forall|j: int| 0 <= j < ts.len() && j != k implies ts[j].id != id by {}
            }
            assert forall|a: int, b: int|
                0 <= a < self.transactions@.len() && 0 <= b < self.transactions@.len() && a != b
                implies self.transactions@[a].id != self.transactions@[b].id by {
                assert(self.transactions@[a].id == ts[a].id);
                assert(self.transactions@[b].id == ts[b].id);
            }
            assert forall|j: int| 0 <= j < self.transactions@.len() implies #[trigger] self.transactions@[j].wf() by {
                assert(ts[j].wf());
            }
        }
        Ok(())
    }

    /// The identities of the wallets owned by `user_id`, in storage order.
    pub fn wallets_of_user(&self, user_id: u128) -> (r: Vec<u128>)
        ensures
            r@ == self.wallets@.filter(|w: Wallet| w.user_id == user_id).map_values(|w: Wallet| w.id),
    {
        let ghost ws = self.wallets@;
        let mut out: Vec<u128> = Vec::new();
        let mut i: usize = 0;
        while i < self.wallets.len()
            invariant
                ws == self.wallets@,
                i <= ws.len(),
                out@ == ws.subrange(0, i as int).filter(|w: Wallet| w.user_id == user_id).map_values(|w: Wallet| w.id),
            decreases ws.len() - i,
        {
            if self.wallets[i].user_id == user_id {
                out.push(self.wallets[i].id);
            }
            i = i + 1;
            proof {
                let pre = ws.subrange(0, i as int);
                reveal(Seq::filter);
                assert(pre.drop_last() =~= ws.subrange(0, i - 1));
                assert(out@ =~= pre.filter(|w: Wallet| w.user_id == user_id).map_values(|w: Wallet| w.id));
            }
        }
        assert(ws.subrange(0, ws.len() as int) =~= ws);
        out
    }

    proof fn lemma_wallet_of(&self, i: int, id: u128)
        requires
            wallet_ids_unique(self.wallets@),
            0 <= i < self.wallets@.len(),
            self.wallets@[i].id == id,
        ensures
            wallet_of(self.wallets@, id) == self.wallets@[i],
            has_wallet(self.wallets@, id),
    {
        lemma_wallet_of(self.wallets@, i, id);
    }
}

pub proof fn lemma_wallet_of(ws: Seq<Wallet>, i: int, id: u128)
    requires
        wallet_ids_unique(ws),
        0 <= i < ws.len(),
        ws[i].id == id,
    ensures
        wallet_of(ws, id) == ws[i],
        has_wallet(ws, id),
{
    let k = choose|k: int| 0 <= k < ws.len() && ws[k].id == id;
    assert(0 <= k < ws.len() && ws[k].id == id);
}

pub proof fn lemma_reserve_of(rs: Seq<ReserveAccount>, i: int, id: u128)
    requires
        reserve_ids_unique(rs),
        0 <= i < rs.len(),
        rs[i].id == id,
    ensures
        reserve_of(rs, id) == rs[i],
        has_reserve(rs, id),
{
    let k = choose|k: int| 0 <= k < rs.len() && rs[k].id == id;
    assert(0 <= k < rs.len() && rs[k].id == id);
}

proof fn lemma_earliest_unique(rs: Seq<ReserveAccount>, a: int, b: int)
    requires
        is_earliest_active(rs, a),
        is_earliest_active(rs, b),
    ensures
        a == b,
{
    assert(rs[b].status == ReserveStatus::Active);
    assert(rs[a].status == ReserveStatus::Active);
}

pub proof fn lemma_tx_of(ts: Seq<Transaction>, i: int, id: u128)
    requires
        tx_ids_unique(ts),
        0 <= i < ts.len(),
        ts[i].id == id,
    ensures
        tx_of(ts, id) == ts[i],
        has_tx(ts, id),
{
    let k = choose|k: int| 0 <= k < ts.len() && ts[k].id == id;
    assert(0 <= k < ts.len() && ts[k].id == id);
}

impl Wallet {
    /// The row `Wallet::new` builds.
    pub open spec fn new_spec(id: u128, user_id: u128, currency: String, now: i64) -> Wallet {
        Wallet {
            id,
            user_id,
            balance: 0,
            currency,
            status: crate::wallet::WalletStatus::Active,
            created_at: now,
            updated_at: now,
        }
    }
}

} // verus!
