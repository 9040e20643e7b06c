//! Accounting laws of the ledger, proved over the same spec functions that the
//! operations' contracts use.
use vstd::prelude::*;
use crate::ledger::{
    Ledger, has_reserve, has_wallet, is_earliest_active, lemma_reserve_of,
    lemma_wallet_of, move_balance, move_reserve, request_rejection, reserve_ids_unique,
    reserve_of, reserve_rejection, reserve_total, settle, wallet_ids_unique, wallet_of,
    wallet_rejection, wallet_total, wallets_wf,
};
use crate::money::Ratio;
use crate::reconciliation::{
    ReconciliationError, ReconciliationReport, correction_rejection, cycle_effect, report_of,
};
use crate::reserve::{ReserveAccount, ReserveStatus, reserve_delta_check};
use crate::wallet::{Wallet, WalletStatus, debit_check, delta_check};

verus! {

/// Every wallet in a well-formed ledger has a balance of at least zero; every
/// operation that changes the ledger keeps it well formed.
pub proof fn lemma_balances_nonnegative(l: Ledger)
    requires
        l.wf(),
    ensures
        forall|i: int| 0 <= i < l.wallets@.len() ==> #[trigger] l.wallets@[i].balance >= 0,
        forall|i: int| 0 <= i < l.reserves@.len() ==> #[trigger] l.reserves@[i].balance >= 0,
{
}

/// Moving one wallet's balance keeps identities, statuses and the position of
/// every wallet.
proof fn lemma_move_keeps_rows(ws: Seq<Wallet>, id: Option<u128>, delta: int, now: i64)
    ensures
        move_balance(ws, id, delta, now).len() == ws.len(),
        forall|i: int| 0 <= i < ws.len() ==> {
            &&& (#[trigger] move_balance(ws, id, delta, now)[i]).id == ws[i].id
            &&& move_balance(ws, id, delta, now)[i].status == ws[i].status
            &&& move_balance(ws, id, delta, now)[i].balance == if id == Some(ws[i].id) {
                (ws[i].balance + delta) as i64
            } else {
                ws[i].balance
            }
        },
{
}

/// After a movement that the wallets accept, the wallets are still well formed.
proof fn lemma_settle_wf(ws: Seq<Wallet>, debit: Option<u128>, credit: Option<u128>, amount: i64, now: i64)
    requires
        wallets_wf(ws),
        request_rejection(debit, credit, amount) is None,
        wallet_rejection(ws, debit, credit, amount) is None,
    ensures
        wallets_wf(settle(ws, debit, credit, amount, now)),
        forall|i: int| 0 <= i < ws.len() ==> {
            &&& (#[trigger] settle(ws, debit, credit, amount, now)[i]).id == ws[i].id
            &&& settle(ws, debit, credit, amount, now)[i].status == ws[i].status
            &&& settle(ws, debit, credit, amount, now)[i].balance == ws[i].balance
                - (if debit == Some(ws[i].id) { amount as int } else { 0 })
                + (if credit == Some(ws[i].id) { amount as int } else { 0 })
        },
{
    let mid = move_balance(ws, debit, -amount, now);
    let after = settle(ws, debit, credit, amount, now);
    lemma_move_keeps_rows(ws, debit, -amount, now);
    lemma_move_keeps_rows(mid, credit, amount as int, now);
    assert forall|i: int| 0 <= i < ws.len() implies {
        &&& (#[trigger] after[i]).id == ws[i].id
        &&& after[i].status == ws[i].status
        &&& after[i].balance == ws[i].balance
            - (if debit == Some(ws[i].id) { amount as int } else { 0 })
            + (if credit == Some(ws[i].id) { amount as int } else { 0 })
    } by {
        if debit == Some(ws[i].id) {
            lemma_wallet_of(ws, i, ws[i].id);
            assert(debit_check(ws[i], amount) is Ok);
        }
        if credit == Some(ws[i].id) {
            lemma_wallet_of(ws, i, ws[i].id);
            assert(delta_check(ws[i], amount) is Ok);
        }
    }
    assert forall|i: int| 0 <= i < after.len() implies #[trigger] after[i].balance >= 0 by {
        assert(ws[i].balance >= 0);
        if debit == Some(ws[i].id) {
            lemma_wallet_of(ws, i, ws[i].id);
        }
    }
}

/// Conservation: a completed transfer between two wallets credits the credit
/// wallet by exactly the amount and debits the debit wallet by exactly the
/// amount; every other wallet keeps its balance.
pub proof fn lemma_transfer_conserves(ws: Seq<Wallet>, debit: u128, credit: u128, amount: i64, now: i64)
    requires
        wallets_wf(ws),
        request_rejection(Some(debit), Some(credit), amount) is None,
        wallet_rejection(ws, Some(debit), Some(credit), amount) is None,
    ensures
        ({
            let after = settle(ws, Some(debit), Some(credit), amount, now);
            &&& has_wallet(after, debit) && has_wallet(after, credit)
            &&& wallet_of(after, credit).balance - wallet_of(ws, credit).balance == amount
            &&& wallet_of(ws, debit).balance - wallet_of(after, debit).balance == amount
            &&& forall|id: u128| id != debit && id != credit && has_wallet(ws, id)
                ==> #[trigger] wallet_of(after, id).balance == wallet_of(ws, id).balance
            &&& wallet_total(after) == wallet_total(ws)
        }),
{
    let after = settle(ws, Some(debit), Some(credit), amount, now);
    lemma_settle_wf(ws, Some(debit), Some(credit), amount, now);
    let di = choose|i: int| 0 <= i < ws.len() && ws[i].id == debit;
    let ci = choose|i: int| 0 <= i < ws.len() && ws[i].id == credit;
    lemma_wallet_of(ws, di, debit);
    lemma_wallet_of(ws, ci, credit);
    lemma_wallet_of(after, di, debit);
    lemma_wallet_of(after, ci, credit);
    assert forall|id: u128| id != debit && id != credit && has_wallet(ws, id)
        implies #[trigger] wallet_of(after, id).balance == wallet_of(ws, id).balance by {
        let k = choose|i: int| 0 <= i < ws.len() && ws[i].id == id;
        lemma_wallet_of(ws, k, id);
        lemma_wallet_of(after, k, id);
    }
    let mid = move_balance(ws, Some(debit), -amount, now);
    lemma_move_keeps_rows(ws, Some(debit), -amount, now);
    assert forall|i: int| 0 <= i < ws.len() && ws[i].id == debit implies i64::MIN <= #[trigger] ws[i].balance + -amount <= i64::MAX by {
        assert(i == di);
    }
    lemma_wallet_total_move(ws, debit, -amount, now);
    lemma_wallet_of(mid, ci, credit);
    assert forall|i: int| 0 <= i < mid.len() && mid[i].id == credit implies i64::MIN <= #[trigger] mid[i].balance + amount <= i64::MAX by {
        assert(i == ci);
    }
    lemma_wallet_total_move(mid, credit, amount as int, now);
}

/// Reversal nets to zero: after a movement that the wallets accept, the reversed
/// movement (same amount, wallets swapped) is accepted too, and it brings every
/// wallet back to its balance before the movement.
pub proof fn lemma_reversal_nets_to_zero(
    ws: Seq<Wallet>,
    debit: Option<u128>,
    credit: Option<u128>,
    amount: i64,
    t1: i64,
    t2: i64,
)
    requires
        wallets_wf(ws),
        request_rejection(debit, credit, amount) is None,
        wallet_rejection(ws, debit, credit, amount) is None,
    ensures
        ({
            let mid = settle(ws, debit, credit, amount, t1);
            let back = settle(mid, credit, debit, amount, t2);
            &&& request_rejection(credit, debit, amount) is None
            &&& wallet_rejection(mid, credit, debit, amount) is None
            &&& back.len() == ws.len()
            &&& forall|i: int| 0 <= i < ws.len() ==> (#[trigger] back[i]).balance == ws[i].balance
                && back[i].id == ws[i].id && back[i].status == ws[i].status
        }),
{
    let mid = settle(ws, debit, credit, amount, t1);
    lemma_settle_wf(ws, debit, credit, amount, t1);
    if let Some(c) = credit {
        let ci = choose|i: int| 0 <= i < ws.len() && ws[i].id == c;
        lemma_wallet_of(ws, ci, c);
        lemma_wallet_of(mid, ci, c);
        assert(mid[ci].balance == ws[ci].balance + amount);
    }
    if let Some(d) = debit {
        let di = choose|i: int| 0 <= i < ws.len() && ws[i].id == d;
        lemma_wallet_of(ws, di, d);
        lemma_wallet_of(mid, di, d);
        assert(mid[di].balance == ws[di].balance - amount);
    }
    assert(wallet_rejection(mid, credit, debit, amount) is None);
    lemma_settle_wf(mid, credit, debit, amount, t2);
}

/// The Active wallet total after moving one wallet's balance by `delta` (the new
/// balance staying representable) changes by `delta` when that wallet is Active.
pub proof fn lemma_wallet_total_move(ws: Seq<Wallet>, id: u128, delta: int, now: i64)
    requires
        wallet_ids_unique(ws),
        forall|i: int| 0 <= i < ws.len() && ws[i].id == id ==> i64::MIN <= #[trigger] ws[i].balance + delta <= i64::MAX,
    ensures
        wallet_total(move_balance(ws, Some(id), delta, now)) == wallet_total(ws) + if has_wallet(ws, id)
            && wallet_of(ws, id).status == WalletStatus::Active {
            delta
        } else {
            0
        },
    decreases ws.len(),
{
    if ws.len() > 0 {
        let init = ws.drop_last();
        let n = ws.len() - 1;
        assert(move_balance(ws, Some(id), delta, now).drop_last() =~= move_balance(init, Some(id), delta, now));
        assert forall|i: int| 0 <= i < init.len() && init[i].id == id implies i64::MIN <= #[trigger] init[i].balance + delta <= i64::MAX by {
            assert(ws[i] == init[i]);
        }
        lemma_wallet_total_move(init, id, delta, now);
        if ws[n].id == id {
            lemma_wallet_of(ws, n, id);
            assert(!has_wallet(init, id));
        } else if has_wallet(init, id) {
            let k = choose|i: int| 0 <= i < init.len() && init[i].id == id;
            lemma_wallet_of(init, k, id);
            lemma_wallet_of(ws, k, id);
        } else if has_wallet(ws, id) {
            let k = choose|i: int| 0 <= i < ws.len() && ws[i].id == id;
            assert(init[k].id == id);
        }
    }
}

/// The Active reserve total after moving one account's balance by `delta` (the
/// new balance staying representable) changes by `delta` when that account is
/// Active.
pub proof fn lemma_reserve_total_move(rs: Seq<ReserveAccount>, id: u128, delta: int, now: i64)
    requires
        reserve_ids_unique(rs),
        forall|i: int| 0 <= i < rs.len() && rs[i].id == id ==> i64::MIN <= #[trigger] rs[i].balance + delta <= i64::MAX,
    ensures
        reserve_total(move_reserve(rs, id, delta, now)) == reserve_total(rs) + if has_reserve(rs, id)
            && reserve_of(rs, id).status == ReserveStatus::Active {
            delta
        } else {
            0
        },
    decreases rs.len(),
{
    if rs.len() > 0 {
        let init = rs.drop_last();
        let n = rs.len() - 1;
        assert(move_reserve(rs, id, delta, now).drop_last() =~= move_reserve(init, id, delta, now));
        assert forall|i: int| 0 <= i < init.len() && init[i].id == id implies i64::MIN <= #[trigger] init[i].balance + delta <= i64::MAX by {
            assert(rs[i] == init[i]);
        }
        lemma_reserve_total_move(init, id, delta, now);
        if rs[n].id == id {
            lemma_reserve_of(rs, n, id);
            assert(!has_reserve(init, id));
        } else if has_reserve(init, id) {
            let k = choose|i: int| 0 <= i < init.len() && init[i].id == id;
            lemma_reserve_of(init, k, id);
            lemma_reserve_of(rs, k, id);
        } else if has_reserve(rs, id) {
            let k = choose|i: int| 0 <= i < rs.len() && rs[i].id == id;
            assert(init[k].id == id);
        }
    }
}

/// Reconciliation idempotence: when a cycle's correction was made (or none was
/// needed), a second cycle with no activity in between reports no discrepancy and
/// writes no corrective entry.
pub proof fn lemma_reconciliation_idempotent(
    l1: Ledger,
    l2: Ledger,
    l3: Ledger,
    min: Ratio,
    warn: Ratio,
    e1: u128,
    e2: u128,
    t1: i64,
    t2: i64,
    d1: i32,
    d2: i32,
    r1: Result<ReconciliationReport, ReconciliationError>,
    r2: Result<ReconciliationReport, ReconciliationError>,
)
    requires
        l1.wf(),
        cycle_effect(l1, l2, min, warn, e1, t1, d1, r1),
        correction_rejection(l1, e1, wallet_total(l1.wallets@) - reserve_total(l1.reserves@)) is None,
        cycle_effect(l2, l3, min, warn, e2, t2, d2, r2),
    ensures
        wallet_total(l2.wallets@) == reserve_total(l2.reserves@),
        l3.reports@.last().discrepancy is None,
        l3.reserves == l2.reserves,
        l3.reserve_transactions == l2.reserve_transactions,
{
    let wt = wallet_total(l1.wallets@);
    let rt = reserve_total(l1.reserves@);
    if wt != rt {
        let rs = l1.reserves@;
        let i = choose|i: int| is_earliest_active(rs, i);
        let id = rs[i].id;
        lemma_reserve_of(rs, i, id);
        assert(reserve_rejection(l1, e1, id, (wt - rt) as i64) is None);
        assert(reserve_delta_check(rs[i], (wt - rt) as i64) is Ok);
        assert forall|j: int| 0 <= j < rs.len() && rs[j].id == id implies i64::MIN <= #[trigger] rs[j].balance + (wt - rt) <= i64::MAX by {
            assert(j == i);
        }
        lemma_reserve_total_move(rs, id, wt - rt, t1);
    }
    assert(l3.reports@.last() == report_of(t2, wallet_total(l2.wallets@), reserve_total(l2.reserves@), min, warn));
}

} // verus!
