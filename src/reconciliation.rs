use vstd::prelude::*;
use vstd::string::StringExecFns;
use crate::ledger::{
    Ledger, correction_target, move_reserve, ratio_of, reserve_rejection,
    reserve_total, wallet_total,
};
use crate::money::{Ratio, AMOUNT_SCALE, amount_text, decimal_text_of, ratio_text_of, RATIO_TERM_MAX};
use crate::reserve::{ReserveError, ReserveOperationType, entry_is, reserve_error_text};
use crate::transaction::{MetaEntry, meta_view, opt_view};

verus! {

/// Outcome of a reconciliation cycle.
#[derive(Debug, Clone, Copy, PartialEq, Eq, Structural)]
pub enum ReconciliationStatus {
    Success,
    Warning,
    Error,
}

/// Point-in-time snapshot written by each reconciliation cycle; never changed after.
#[derive(Debug, Clone, Copy, PartialEq, Eq, Structural)]
pub struct ReconciliationReport {
    pub timestamp: i64,
    pub wallet_total: i128,
    pub reserve_total: i128,
    pub ratio: Ratio,
    /// Reserve total minus wallet total, when they differ.
    pub discrepancy: Option<i128>,
    pub status: ReconciliationStatus,
}

/// Why a reconciliation cycle failed. The cycle's report is written either way.
#[derive(Debug, Clone, Copy, PartialEq, Eq, Structural)]
pub enum ReconciliationError {
    /// The ratio is below the minimum threshold.
    ReserveRatioError(Ratio),
    /// The corrective reserve entry was refused.
    ReconciliationFailed(ReserveError),
    /// A correction is needed but no reserve account is Active.
    NoActiveReserve,
    /// Another cycle is running.
    AlreadyRunning,
}

/// The human-readable reason of a reconciliation error.
pub open spec fn reconciliation_error_text(e: ReconciliationError) -> Seq<char> {
    match e {
        ReconciliationError::ReserveRatioError(ratio) => "Reserve ratio below threshold: "@ + ratio_text_of(ratio),
        ReconciliationError::ReconciliationFailed(r) => "Reconciliation failed: "@ + reserve_error_text(r),
        ReconciliationError::NoActiveReserve => "Reconciliation failed: no active reserve account"@,
        ReconciliationError::AlreadyRunning => "Reconciliation already running"@,
    }
}

impl ReconciliationError {
    /// Every ratio this error carries is a ratio of totals.
    pub open spec fn wf(&self) -> bool {
        match self {
            ReconciliationError::ReserveRatioError(ratio) => ratio.wf(),
            ReconciliationError::ReconciliationFailed(r) => r.wf(),
            _ => true,
        }
    }

    /// The human-readable reason of this error.
    pub fn message(&self) -> (r: String)
        requires
            self.wf(),
        ensures
            r@ == reconciliation_error_text(*self),
    {
        match self {
            ReconciliationError::ReserveRatioError(ratio) => String::from_str("Reserve ratio below threshold: ").concat(
                ratio.text().as_str(),
            ),
            ReconciliationError::ReconciliationFailed(r) => String::from_str("Reconciliation failed: ").concat(
                r.message().as_str(),
            ),
            ReconciliationError::NoActiveReserve => String::from_str("Reconciliation failed: no active reserve account"),
            ReconciliationError::AlreadyRunning => String::from_str("Reconciliation already running"),
        }
    }
}

/// The alert raised after a cycle, as (title, message): a failed cycle, a
/// discrepancy found, or a ratio below the warning threshold; none otherwise.
pub open spec fn alert_of(result: Result<ReconciliationReport, ReconciliationError>) -> Option<(Seq<char>, Seq<char>)> {
    match result {
        Err(e) => Some(("Reconciliation Failed"@, reconciliation_error_text(e))),
        Ok(report) => match report.discrepancy {
            Some(d) => Some((
                "Reconciliation Discrepancy"@,
                "Found discrepancy of "@ + decimal_text_of(d, AMOUNT_SCALE) + " in daily reconciliation"@,
            )),
            None => if report.status == ReconciliationStatus::Warning {
                Some((
                    "Reserve Ratio Warning"@,
                    "Reserve ratio "@ + ratio_text_of(report.ratio) + " is below the warning threshold"@,
                ))
            } else {
                None
            },
        },
    }
}

impl ReconciliationReport {
    /// The report's totals and ratio are within the bounds of a snapshot.
    pub open spec fn wf(&self) -> bool {
        &&& self.ratio.wf()
        &&& self.discrepancy matches Some(d) ==> -RATIO_TERM_MAX <= d <= RATIO_TERM_MAX
    }
}

/// Decides the alert to send after a cycle (see `alert_of`).
pub fn alert_for(result: &Result<ReconciliationReport, ReconciliationError>) -> (r: Option<(String, String)>)
    requires
        match result {
            Ok(report) => report.wf(),
            Err(e) => e.wf(),
        },
    ensures
        match r {
            Some((t, m)) => alert_of(*result) == Some((t@, m@)),
            None => alert_of(*result) is None,
        },
{
    match result {
        Err(e) => Some((String::from_str("Reconciliation Failed"), e.message())),
        Ok(report) => match report.discrepancy {
            Some(d) => {
                let m = String::from_str("Found discrepancy of ").concat(amount_text(d).as_str()).concat(
                    " in daily reconciliation",
                );
                Some((String::from_str("Reconciliation Discrepancy"), m))
            },
            None => if report.status == ReconciliationStatus::Warning {
                let m = String::from_str("Reserve ratio ").concat(report.ratio.text().as_str()).concat(
                    " is below the warning threshold",
                );
                Some((String::from_str("Reserve Ratio Warning"), m))
            } else {
                None
            },
        },
    }
}

/// Error below `min`, Warning below `warn`, Success otherwise.
pub open spec fn classify_spec(ratio: Ratio, min: Ratio, warn: Ratio) -> ReconciliationStatus {
    if ratio.spec_lt(min) {
        ReconciliationStatus::Error
    } else if ratio.spec_lt(warn) {
        ReconciliationStatus::Warning
    } else {
        ReconciliationStatus::Success
    }
}

/// Classifies a reserve ratio against the minimum and warning thresholds.
pub fn classify(ratio: &Ratio, min: &Ratio, warn: &Ratio) -> (r: ReconciliationStatus)
    requires
        ratio.wf(),
        min.is_threshold(),
        warn.is_threshold(),
    ensures
        r == classify_spec(*ratio, *min, *warn),
{
    if ratio.is_below(min) {
        ReconciliationStatus::Error
    } else if ratio.is_below(warn) {
        ReconciliationStatus::Warning
    } else {
        ReconciliationStatus::Success
    }
}

/// The refusal of the correction of a reserve total by `delta` (the wallet total
/// minus the reserve total) recorded as entry `entry_id`; none when `delta` is 0.
pub open spec fn correction_rejection(l: Ledger, entry_id: u128, delta: int) -> Option<ReconciliationError> {
    if delta == 0 {
        None
    } else if correction_target(l.reserves@) is None {
        Some(ReconciliationError::NoActiveReserve)
    } else if !(i64::MIN <= delta <= i64::MAX) {
        Some(ReconciliationError::ReconciliationFailed(ReserveError::InvalidAmount))
    } else {
        match reserve_rejection(l, entry_id, correction_target(l.reserves@)->0, delta as i64) {
            Some(e) => Some(ReconciliationError::ReconciliationFailed(e)),
            None => None,
        }
    }
}

/// The report of a cycle over totals `wt` and `rt`.
pub open spec fn report_of(now: i64, wt: int, rt: int, min: Ratio, warn: Ratio) -> ReconciliationReport {
    ReconciliationReport {
        timestamp: now,
        wallet_total: wt as i128,
        reserve_total: rt as i128,
        ratio: ratio_of(wt, rt),
        discrepancy: if wt != rt {
            Some((rt - wt) as i128)
        } else {
            None
        },
        status: classify_spec(ratio_of(wt, rt), min, warn),
    }
}

/// The metadata of a corrective entry: the two totals as decimal text.
pub open spec fn correction_metadata(wt: int, rt: int) -> Seq<(Seq<char>, Seq<char>)> {
    seq![
        ("wallet_total"@, decimal_text_of(wt as i128, AMOUNT_SCALE)),
        ("reserve_total"@, decimal_text_of(rt as i128, AMOUNT_SCALE)),
    ]
}

/// What `chrono` prints for the date `days` after 1970-01-01.
pub uninterp spec fn day_text_of(days: i32) -> Seq<char>;

/// Relies on `chrono::NaiveDate::from_epoch_days`, which is `None` only outside
/// chrono's date range (years 1 to 9999 are inside it), and on `NaiveDate`'s
/// `Display`.
#[verifier::external_body]
fn day_text(days: i32) -> (r: Option<String>)
    ensures
        r matches Some(s) ==> s@ == day_text_of(days),
        -719_162 <= days <= 2_932_896 ==> r is Some,
{
    chrono::NaiveDate::from_epoch_days(days).map(|d| d.to_string())
}

/// The reference of the corrective entry made on day `days`.
pub open spec fn correction_reference_of(days: i32) -> Seq<char> {
    "reconciliation_"@ + day_text_of(days)
}

/// What one reconciliation cycle does: `after` is `before` with the cycle's report
/// appended and, when the totals differ and the correction is accepted, the
/// corrective entry recorded; `r` is the cycle's result.
pub open spec fn cycle_effect(
    before: Ledger,
    after: Ledger,
    min: Ratio,
    warn: Ratio,
    entry_id: u128,
    now: i64,
    day: i32,
    r: Result<ReconciliationReport, ReconciliationError>,
) -> bool {
    let wt = wallet_total(before.wallets@);
    let rt = reserve_total(before.reserves@);
    let report = report_of(now, wt, rt, min, warn);
    let fix = correction_rejection(before, entry_id, wt - rt);
    &&& after.reports@ == before.reports@.push(report)
    &&& after.wallets == before.wallets
    &&& after.transactions == before.transactions
    &&& (wt == rt || fix is Some) ==> after.reserves == before.reserves
        && after.reserve_transactions == before.reserve_transactions
    &&& (wt != rt && fix is None) ==> {
        &&& after.reserves@ == move_reserve(before.reserves@,
            correction_target(before.reserves@)->0, wt - rt, now)
        &&& after.reserve_transactions@.len() == before.reserve_transactions@.len() + 1
        &&& after.reserve_transactions@.drop_last() == before.reserve_transactions@
        &&& {
            let e = after.reserve_transactions@.last();
            &&& entry_is(e, entry_id, correction_target(before.reserves@)->0, None,
                (wt - rt) as i64, ReserveOperationType::Reconciliation, opt_view(e.reference_id),
                correction_metadata(wt, rt), now)
            &&& (e.reference_id is None || opt_view(e.reference_id) == Some(correction_reference_of(day)))
            &&& (-719_162 <= day <= 2_932_896 ==> opt_view(e.reference_id) == Some(correction_reference_of(day)))
        }
    }
    &&& r == if fix is Some {
        Err::<ReconciliationReport, ReconciliationError>(fix->0)
    } else if report.ratio.spec_lt(min) {
        Err(ReconciliationError::ReserveRatioError(report.ratio))
    } else {
        Ok(report)
    }
}

/// Runs reconciliation cycles against fixed thresholds, one at a time.
pub struct ReconciliationService {
    pub min_reserve_ratio: Ratio,
    pub warning_reserve_ratio: Ratio,
    pub running: bool,
}

impl ReconciliationService {
    pub open spec fn wf(&self) -> bool {
        self.min_reserve_ratio.is_threshold() && self.warning_reserve_ratio.is_threshold()
    }

    pub open spec fn is_running(&self) -> bool {
        self.running
    }

    /// A service with the given thresholds and no cycle running.
    pub fn new(min_reserve_ratio: Ratio, warning_reserve_ratio: Ratio) -> (r: ReconciliationService)
        requires
            min_reserve_ratio.is_threshold(),
            warning_reserve_ratio.is_threshold(),
        ensures
            r.wf(),
            !r.is_running(),
            r.min_reserve_ratio == min_reserve_ratio,
            r.warning_reserve_ratio == warning_reserve_ratio,
    {
        ReconciliationService { min_reserve_ratio, warning_reserve_ratio, running: false }
    }

    /// Claims the single-flight slot: true when no cycle was running, and the
    /// slot is then taken; false when a cycle is already running.
    pub fn try_begin(&mut self) -> (r: bool)
        ensures
            r == !old(self).is_running(),
            final(self).is_running(),
            final(self).min_reserve_ratio == old(self).min_reserve_ratio,
            final(self).warning_reserve_ratio == old(self).warning_reserve_ratio,
    {
        if self.running {
            false
        } else {
            self.running = true;
            true
        }
    }

    /// Releases the single-flight slot.
    pub fn finish(&mut self)
        ensures
            !final(self).is_running(),
            final(self).min_reserve_ratio == old(self).min_reserve_ratio,
            final(self).warning_reserve_ratio == old(self).warning_reserve_ratio,
    {
        self.running = false;
    }

    /// One reconciliation cycle over a consistent snapshot of `ledger`: totals,
    /// ratio and outcome; when the totals differ, a corrective Reconciliation entry
    /// of `wallet total - reserve total` on the earliest-created Active reserve
    /// account; then the report is appended. Fails, after the report is written,
    /// when the correction was refused or the ratio is below the minimum.
    pub fn perform_reconciliation(&self, ledger: &mut Ledger, entry_id: u128, now: i64, day: i32) -> (r: Result<ReconciliationReport, ReconciliationError>)
        requires
            self.wf(),
            old(ledger).wf(),
        ensures
            final(ledger).wf(),
            match r {
                Ok(report) => report.wf(),
                Err(e) => e.wf(),
            },
            cycle_effect(*old(ledger), *final(ledger), self.min_reserve_ratio, self.warning_reserve_ratio,
                entry_id, now, day, r),
    {
        let (wt, rt) = ledger.active_totals();
        let ratio = ledger.reserve_ratio();
        let status = classify(&ratio, &self.min_reserve_ratio, &self.warning_reserve_ratio);
        let discrepancy = if wt != rt {
            Some(rt - wt)
        } else {
            None
        };
        let mut failure: Option<ReconciliationError> = None;
        if wt != rt {
            let delta = wt - rt;
            match ledger.earliest_active_reserve() {
                None => {
                    failure = Some(ReconciliationError::NoActiveReserve);
                },
                Some(i) => {
                    let target = ledger.reserves[i].id;
                    if delta < i64::MIN as i128 || delta > i64::MAX as i128 {
                        failure = Some(ReconciliationError::ReconciliationFailed(ReserveError::InvalidAmount));
                    } else {
                        let reference = match day_text(day) {
                            Some(text) => Some(String::from_str("reconciliation_").concat(text.as_str())),
                            None => None,
                        };
                        proof {
                            reveal_strlit("reconciliation_");
                            reveal_strlit("wallet_total");
                            reveal_strlit("reserve_total");
                        }
                        let mut metadata: Vec<MetaEntry> = Vec::new();
                        metadata.push(MetaEntry { key: String::from_str("wallet_total"), value: amount_text(wt) });
                        metadata.push(MetaEntry { key: String::from_str("reserve_total"), value: amount_text(rt) });
                        proof {
                            assert(meta_view(metadata@) =~= correction_metadata(wt as int, rt as int));
                        }
                        match ledger.record_reserve_operation(
                            entry_id,
                            target,
                            delta as i64,
                            ReserveOperationType::Reconciliation,
                            None,
                            reference,
                            metadata,
                            now,
                        ) {
                            Ok(_) => {},
                            Err(e) => {
                                failure = Some(ReconciliationError::ReconciliationFailed(e));
                            },
                        }
                    }
                },
            }
        }
        let report = ReconciliationReport {
            timestamp: now,
            wallet_total: wt,
            reserve_total: rt,
            ratio,
            discrepancy,
            status,
        };
        ledger.reports.push(report);
        match failure {
            Some(e) => Err(e),
            None => {
                if ratio.is_below(&self.min_reserve_ratio) {
                    Err(ReconciliationError::ReserveRatioError(ratio))
                } else {
                    Ok(report)
                }
            },
        }
    }

    /// A manually triggered cycle: the same code path as the scheduled one, refused
    /// with `AlreadyRunning` while another cycle holds the single-flight slot.
    pub fn trigger_reconciliation(&mut self, ledger: &mut Ledger, entry_id: u128, now: i64, day: i32) -> (r: Result<ReconciliationReport, ReconciliationError>)
        requires
            old(self).wf(),
            old(ledger).wf(),
        ensures
            final(ledger).wf(),
            final(self).wf(),
            final(self).min_reserve_ratio == old(self).min_reserve_ratio,
            final(self).warning_reserve_ratio == old(self).warning_reserve_ratio,
            match r {
                Ok(report) => report.wf(),
                Err(e) => e.wf(),
            },
            !final(self).is_running() <== !old(self).is_running(),
            old(self).is_running() ==> r == Err::<ReconciliationReport, ReconciliationError>(ReconciliationError::AlreadyRunning)
                && *final(ledger) == *old(ledger) && *final(self) == *old(self),
            !old(self).is_running() ==> cycle_effect(*old(ledger), *final(ledger), old(self).min_reserve_ratio,
                old(self).warning_reserve_ratio, entry_id, now, day, r),
    {
        if !self.try_begin() {
            return Err(ReconciliationError::AlreadyRunning);
        }
        let r = self.perform_reconciliation(ledger, entry_id, now, day);
        self.finish();
        r
    }
}

} // verus!
