//! Read-only analytics over the treasury ledger: aggregated spending
//! summaries, budget utilization, per-type breakdowns, trends, forecasts and
//! balance snapshots.

use vstd::prelude::*;
use crate::management::TreasuryEngine;
use crate::types::{Budget, Transaction, TransactionStatus, TransactionType};

verus! {

/// Reporting period options for analytics queries.
#[derive(Clone, Copy, Debug, PartialEq, Eq, Structural)]
pub enum ReportingPeriod {
    Weekly,
    Monthly,
    Quarterly,
    Custom,
}

/// Aggregated spending statistics for a given time period.
#[derive(Clone, Copy, Debug, PartialEq, Eq, Structural)]
pub struct SpendingSummary {
    pub treasury_id: u64,
    pub total_deposits: i128,
    pub total_withdrawals: i128,
    pub net_flow: i128,
    pub tx_count: u32,
    pub avg_tx_amount: i128,
    pub period_start: u64,
    pub period_end: u64,
}

/// Per-category budget utilization tracking.
pub struct BudgetUtilization {
    pub category: String,
    pub allocated: i128,
    pub spent: i128,
    pub remaining: i128,
    /// Utilization percentage in basis points (e.g. 7500 = 75.00%).
    pub utilization_bps: u32,
}

/// Spending breakdown grouped by transaction type.
pub struct CategoryBreakdown {
    pub category_name: String,
    pub total_amount: i128,
    pub tx_count: u32,
}

/// Point-in-time treasury balance snapshot.
#[derive(Clone, Copy, Debug, PartialEq, Eq, Structural)]
pub struct TreasurySnapshot {
    pub treasury_id: u64,
    pub timestamp: u64,
    pub balance_xlm: i128,
    pub total_deposits: i128,
    pub total_withdrawals: i128,
    pub snapshot_index: u32,
}

/// Trend comparison between two periods (values in basis points).
#[derive(Clone, Copy, Debug, PartialEq, Eq, Structural)]
pub struct SpendingTrend {
    pub deposits_change_bps: i64,
    pub withdrawals_change_bps: i64,
    pub net_flow_change_bps: i64,
}

/// Simple linear forecast for the next period.
#[derive(Clone, Copy, Debug, PartialEq, Eq, Structural)]
pub struct SpendingForecast {
    pub projected_deposits: i128,
    pub projected_withdrawals: i128,
    pub projected_net_flow: i128,
    pub periods_analyzed: u32,
}

/// The transaction has settled.
pub open spec fn spec_is_executed(tx: Transaction) -> bool {
    tx.status == TransactionStatus::Executed
}

/// Whether the transaction has settled.
pub fn is_executed(tx: &Transaction) -> (r: bool)
    ensures
        r == spec_is_executed(*tx),
{
    matches!(tx.status, TransactionStatus::Executed)
}

/// Signed division as the machine performs it: rounding toward zero.
pub open spec fn div_trunc(x: int, d: int) -> int
    recommends
        d != 0,
{
    if x == 0 {
        0
    } else if x > 0 && d > 0 {
        x / d
    } else if x < 0 && d < 0 {
        (x * -1) / (d * -1)
    } else if x < 0 {
        ((x * -1) / d) * -1
    } else {
        (x / (d * -1)) * -1
    }
}

/// Percentage change from `old_value` to `new_value` in basis points: 0 for
/// 0 to 0, a flat 10000 (one hundred percent) for growth out of nothing, and
/// `(new - old) * 10000 / old` (rounded toward zero) otherwise.
pub open spec fn spec_pct_change_bps(old_value: int, new_value: int) -> int {
    if old_value == 0 {
        if new_value == 0 {
            0
        } else {
            10000
        }
    } else {
        div_trunc((new_value - old_value) * 10000, old_value)
    }
}

/// Computes the percentage change from `old_value` to `new_value` in basis
/// points. Positive means increase, negative means decrease.
pub fn pct_change_bps(old_value: i128, new_value: i128) -> (r: i64)
    requires
        (new_value - old_value) * 10000 <= i128::MAX,
        (new_value - old_value) * 10000 >= i128::MIN,
        i64::MIN <= spec_pct_change_bps(old_value as int, new_value as int) <= i64::MAX,
    ensures
        r == spec_pct_change_bps(old_value as int, new_value as int),
{
    if old_value == 0 {
        if new_value == 0 {
            return 0;
        }
        return 10000;
    }
    let diff = new_value - old_value;
    let prod = diff * 10000;
    // the quotient is within the i64 range by assumption, so division succeeds
    let change = prod.checked_div(old_value).unwrap();
    change as i64
}

/// The transaction belongs to the treasury, has settled, and was created
/// within the (inclusive) window.
pub open spec fn in_window(tx: Transaction, tid: u64, start: u64, end: u64) -> bool {
    tx.treasury_id == tid && spec_is_executed(tx) && start <= tx.created_at <= end
}

/// Total settled amount of the given transaction type within the window.
pub open spec fn spec_type_total(
    txs: Seq<Transaction>,
    tid: u64,
    start: u64,
    end: u64,
    tt: TransactionType,
) -> int
    decreases txs.len(),
{
    if txs.len() == 0 {
        0
    } else {
        spec_type_total(txs.drop_last(), tid, start, end, tt) + if in_window(
            txs.last(),
            tid,
            start,
            end,
        ) && txs.last().tx_type == tt {
            txs.last().amount as int
        } else {
            0
        }
    }
}

/// Number of settled transactions of the given type within the window.
pub open spec fn spec_type_count(
    txs: Seq<Transaction>,
    tid: u64,
    start: u64,
    end: u64,
    tt: TransactionType,
) -> int
    decreases txs.len(),
{
    if txs.len() == 0 {
        0
    } else {
        spec_type_count(txs.drop_last(), tid, start, end, tt) + if in_window(
            txs.last(),
            tid,
            start,
            end,
        ) && txs.last().tx_type == tt {
            1int
        } else {
            0
        }
    }
}

/// Number of settled transactions of any type within the window.
pub open spec fn spec_window_count(txs: Seq<Transaction>, tid: u64, start: u64, end: u64) -> int
    decreases txs.len(),
{
    if txs.len() == 0 {
        0
    } else {
        spec_window_count(txs.drop_last(), tid, start, end) + if in_window(
            txs.last(),
            tid,
            start,
            end,
        ) {
            1int
        } else {
            0
        }
    }
}

/// Total settled deposits within the window.
pub open spec fn spec_deposits_in(txs: Seq<Transaction>, tid: u64, start: u64, end: u64) -> int {
    spec_type_total(txs, tid, start, end, TransactionType::Deposit)
}

/// Total settled outflow (withdrawals, bounty funding, milestone payments)
/// within the window.
pub open spec fn spec_withdrawals_in(txs: Seq<Transaction>, tid: u64, start: u64, end: u64) -> int {
    spec_type_total(txs, tid, start, end, TransactionType::Withdrawal) + spec_type_total(
        txs,
        tid,
        start,
        end,
        TransactionType::BountyFunding,
    ) + spec_type_total(txs, tid, start, end, TransactionType::MilestonePayment)
}

/// With every amount positive, a type total over a prefix is non-negative
/// and bounded by the total over the whole sequence.
pub proof fn lemma_type_total_prefix(
    txs: Seq<Transaction>,
    tid: u64,
    start: u64,
    end: u64,
    tt: TransactionType,
    i: int,
)
    requires
        0 <= i <= txs.len(),
        forall|k: int| 0 <= k < txs.len() ==> (#[trigger] txs[k]).amount > 0,
    ensures
        0 <= spec_type_total(txs.take(i), tid, start, end, tt),
        spec_type_total(txs.take(i), tid, start, end, tt)
            <= spec_type_total(txs, tid, start, end, tt),
    decreases txs.len() - i,
{
    lemma_type_total_nonneg(txs.take(i), tid, start, end, tt);
    if i == txs.len() {
        assert(txs.take(i) =~= txs);
    } else {
        assert(txs.take(i + 1).drop_last() =~= txs.take(i));
        assert(txs.take(i + 1).last() == txs[i]);
        lemma_type_total_prefix(txs, tid, start, end, tt, i + 1);
    }
}

pub proof fn lemma_type_total_nonneg(
    txs: Seq<Transaction>,
    tid: u64,
    start: u64,
    end: u64,
    tt: TransactionType,
)
    requires
        forall|k: int| 0 <= k < txs.len() ==> (#[trigger] txs[k]).amount > 0,
    ensures
        spec_type_total(txs, tid, start, end, tt) >= 0,
    decreases txs.len(),
{
    if txs.len() > 0 {
        assert(forall|k: int| 0 <= k < txs.drop_last().len()
            ==> (#[trigger] txs.drop_last()[k]).amount > 0);
        lemma_type_total_nonneg(txs.drop_last(), tid, start, end, tt);
    }
}

impl TreasuryEngine {
    /// Aggregates the treasury's settled transactions created within
    /// `[period_start, period_end]`: total deposits, total outflow, net flow,
    /// transaction count, and the mean settled amount.
    pub fn compute_spending_summary(
        &self,
        treasury_id: u64,
        period_start: u64,
        period_end: u64,
    ) -> (r: SpendingSummary)
        requires
            self.wf(),
            self.transactions@.len() <= u32::MAX,
            spec_deposits_in(self.transactions@, treasury_id, period_start, period_end)
                + spec_withdrawals_in(self.transactions@, treasury_id, period_start, period_end)
                <= i128::MAX,
        ensures
            r.treasury_id == treasury_id,
            r.period_start == period_start,
            r.period_end == period_end,
            r.total_deposits == spec_deposits_in(
                self.transactions@,
                treasury_id,
                period_start,
                period_end,
            ),
            r.total_withdrawals == spec_withdrawals_in(
                self.transactions@,
                treasury_id,
                period_start,
                period_end,
            ),
            r.net_flow == r.total_deposits - r.total_withdrawals,
            r.tx_count == spec_window_count(
                self.transactions@,
                treasury_id,
                period_start,
                period_end,
            ),
            r.avg_tx_amount == (if r.tx_count > 0 {
                (r.total_deposits + r.total_withdrawals) / (r.tx_count as int)
            } else {
                0
            }),
    {
        let ghost txs = self.transactions@;
        proof {
            assert(forall|k: int| 0 <= k < txs.len() ==> (#[trigger] txs[k]).amount > 0);
        }
        let mut deposits: i128 = 0;
        let mut w_w: i128 = 0;
        let mut w_b: i128 = 0;
        let mut w_m: i128 = 0;
        let mut count: usize = 0;
        let mut i: usize = 0;
        proof {
            assert(txs.take(0) =~= Seq::<Transaction>::empty());
        }
        while i < self.transactions.len()
            invariant
                i <= self.transactions.len(),
                txs == self.transactions@,
                self.wf(),
                self.transactions@.len() <= u32::MAX,
                spec_deposits_in(txs, treasury_id, period_start, period_end)
                    + spec_withdrawals_in(txs, treasury_id, period_start, period_end) <= i128::MAX,
                deposits == spec_type_total(
                    txs.take(i as int),
                    treasury_id,
                    period_start,
                    period_end,
                    TransactionType::Deposit,
                ),
                w_w == spec_type_total(
                    txs.take(i as int),
                    treasury_id,
                    period_start,
                    period_end,
                    TransactionType::Withdrawal,
                ),
                w_b == spec_type_total(
                    txs.take(i as int),
                    treasury_id,
                    period_start,
                    period_end,
                    TransactionType::BountyFunding,
                ),
                w_m == spec_type_total(
                    txs.take(i as int),
                    treasury_id,
                    period_start,
                    period_end,
                    TransactionType::MilestonePayment,
                ),
                count == spec_window_count(txs.take(i as int), treasury_id, period_start, period_end),
                count <= i,
            decreases self.transactions.len() - i,
        {
            proof {
                assert(txs.take(i as int + 1).drop_last() =~= txs.take(i as int));
                assert(txs.take(i as int + 1).last() == txs[i as int]);
                assert(forall|k: int| 0 <= k < txs.len() ==> (#[trigger] txs[k]).amount > 0);
                lemma_type_total_prefix(
                    txs,
                    treasury_id,
                    period_start,
                    period_end,
                    TransactionType::Deposit,
                    i as int + 1,
                );
                lemma_type_total_prefix(
                    txs,
                    treasury_id,
                    period_start,
                    period_end,
                    TransactionType::Withdrawal,
                    i as int + 1,
                );
                lemma_type_total_prefix(
                    txs,
                    treasury_id,
                    period_start,
                    period_end,
                    TransactionType::BountyFunding,
                    i as int + 1,
                );
                lemma_type_total_prefix(
                    txs,
                    treasury_id,
                    period_start,
                    period_end,
                    TransactionType::MilestonePayment,
                    i as int + 1,
                );
                lemma_type_total_prefix(
                    txs,
                    treasury_id,
                    period_start,
                    period_end,
                    TransactionType::Deposit,
                    i as int,
                );
                lemma_type_total_prefix(
                    txs,
                    treasury_id,
                    period_start,
                    period_end,
                    TransactionType::Withdrawal,
                    i as int,
                );
                lemma_type_total_prefix(
                    txs,
                    treasury_id,
                    period_start,
                    period_end,
                    TransactionType::BountyFunding,
                    i as int,
                );
                lemma_type_total_prefix(
                    txs,
                    treasury_id,
                    period_start,
                    period_end,
                    TransactionType::MilestonePayment,
                    i as int,
                );
            }
            let tx = &self.transactions[i];
            let counted = is_executed(tx) && tx.created_at >= period_start
                && tx.created_at <= period_end && tx.treasury_id == treasury_id;
            if counted {
                count = count + 1;
                match tx.tx_type {
                    TransactionType::Deposit => {
                        deposits = deposits + tx.amount;
                    },
                    TransactionType::Withdrawal => {
                        w_w = w_w + tx.amount;
                    },
                    TransactionType::BountyFunding => {
                        w_b = w_b + tx.amount;
                    },
                    TransactionType::MilestonePayment => {
                        w_m = w_m + tx.amount;
                    },
                    TransactionType::AllowanceGrant => {},
                }
            }
            i = i + 1;
        }
        proof {
            assert(txs.take(txs.len() as int) =~= txs);
            lemma_type_total_nonneg(txs, treasury_id, period_start, period_end,
                TransactionType::Deposit);
            lemma_type_total_nonneg(txs, treasury_id, period_start, period_end,
                TransactionType::Withdrawal);
            lemma_type_total_nonneg(txs, treasury_id, period_start, period_end,
                TransactionType::BountyFunding);
            lemma_type_total_nonneg(txs, treasury_id, period_start, period_end,
                TransactionType::MilestonePayment);
        }
        let withdrawals = w_w + w_b + w_m;
        let net_flow = deposits - withdrawals;
        let avg_tx_amount: i128 = if count > 0 {
            (deposits + withdrawals) / (count as i128)
        } else {
            0
        };
        SpendingSummary {
            treasury_id,
            total_deposits: deposits,
            total_withdrawals: withdrawals,
            net_flow,
            tx_count: count as u32,
            avg_tx_amount,
            period_start,
            period_end,
        }
    }
}

/// A type total over any window is bounded by the total over all time.
pub proof fn lemma_window_le_full(
    txs: Seq<Transaction>,
    tid: u64,
    ws: u64,
    we: u64,
    tt: TransactionType,
)
    requires
        forall|k: int| 0 <= k < txs.len() ==> (#[trigger] txs[k]).amount > 0,
    ensures
        0 <= spec_type_total(txs, tid, ws, we, tt),
        spec_type_total(txs, tid, ws, we, tt) <= spec_type_total(txs, tid, 0, u64::MAX, tt),
    decreases txs.len(),
{
    if txs.len() > 0 {
        assert(forall|k: int| 0 <= k < txs.drop_last().len()
            ==> (#[trigger] txs.drop_last()[k]).amount > 0);
        lemma_window_le_full(txs.drop_last(), tid, ws, we, tt);
    }
}

/// What `num` moving windows of `plen` seconds, ending at `now` and walking
/// backwards, accumulate: total deposits, total outflow, and the number of
/// windows with any settled activity.
pub open spec fn spec_forecast_acc(
    txs: Seq<Transaction>,
    tid: u64,
    num: int,
    plen: u64,
    now: u64,
) -> (int, int, int)
    decreases num,
{
    if num <= 0 {
        (0, 0, 0)
    } else {
        let prev = spec_forecast_acc(txs, tid, num - 1, plen, now);
        let pe = now.saturating_sub((((num - 1) * plen) as u64));
        let ps = pe.saturating_sub(plen);
        if ps >= pe {
            prev
        } else if spec_window_count(txs, tid, ps, pe) > 0 {
            (
                prev.0 + spec_deposits_in(txs, tid, ps, pe),
                prev.1 + spec_withdrawals_in(txs, tid, ps, pe),
                prev.2 + 1,
            )
        } else {
            prev
        }
    }
}

impl TreasuryEngine {
    /// Simple moving-average forecast: averages the settled deposits and
    /// outflow of the last `num_periods` windows of `period_length_secs`
    /// (counting only windows with activity) and projects them onto the next
    /// period.
    #[verifier::rlimit(60)]
    pub fn compute_forecast(
        &self,
        treasury_id: u64,
        num_periods: u32,
        period_length_secs: u64,
        current_time: u64,
    ) -> (r: SpendingForecast)
        requires
            self.wf(),
            self.transactions@.len() <= u32::MAX,
            num_periods * period_length_secs <= u64::MAX,
            num_periods * (spec_deposits_in(self.transactions@, treasury_id, 0, u64::MAX)
                + spec_withdrawals_in(self.transactions@, treasury_id, 0, u64::MAX)) <= i128::MAX,
        ensures
            num_periods == 0 || period_length_secs == 0 ==> r == (SpendingForecast {
                projected_deposits: 0,
                projected_withdrawals: 0,
                projected_net_flow: 0,
                periods_analyzed: 0,
            }),
            num_periods > 0 && period_length_secs > 0 ==> {
                let acc = spec_forecast_acc(
                    self.transactions@,
                    treasury_id,
                    num_periods as int,
                    period_length_secs,
                    current_time,
                );
                if acc.2 == 0 {
                    r == (SpendingForecast {
                        projected_deposits: 0,
                        projected_withdrawals: 0,
                        projected_net_flow: 0,
                        periods_analyzed: 0,
                    })
                } else {
                    &&& r.projected_deposits == acc.0 / acc.2
                    &&& r.projected_withdrawals == acc.1 / acc.2
                    &&& r.projected_net_flow == r.projected_deposits - r.projected_withdrawals
                    &&& r.periods_analyzed == acc.2
                }
            },
    {
        let ghost txs = self.transactions@;
        let ghost fd = spec_deposits_in(txs, treasury_id, 0, u64::MAX);
        let ghost fw = spec_withdrawals_in(txs, treasury_id, 0, u64::MAX);
        if num_periods == 0 || period_length_secs == 0 {
            return SpendingForecast {
                projected_deposits: 0,
                projected_withdrawals: 0,
                projected_net_flow: 0,
                periods_analyzed: 0,
            };
        }
        proof {
            assert(forall|k: int| 0 <= k < txs.len() ==> (#[trigger] txs[k]).amount > 0);
            lemma_window_le_full(txs, treasury_id, 0, 0, TransactionType::Deposit);
            lemma_window_le_full(txs, treasury_id, 0, 0, TransactionType::Withdrawal);
            lemma_window_le_full(txs, treasury_id, 0, 0, TransactionType::BountyFunding);
            lemma_window_le_full(txs, treasury_id, 0, 0, TransactionType::MilestonePayment);
            assert(num_periods * (fd + fw) <= i128::MAX);
            assert(fd + fw <= num_periods * (fd + fw)) by (nonlinear_arith)
                requires
                    num_periods >= 1,
                    fd >= 0,
                    fw >= 0,
            ;
        }
        let mut acc_d: i128 = 0;
        let mut acc_w: i128 = 0;
        let mut valid: u32 = 0;
        let mut k: u32 = 0;
        while k < num_periods
            invariant
                0 <= k <= num_periods,
                num_periods > 0,
                period_length_secs > 0,
                txs == self.transactions@,
                self.wf(),
                self.transactions@.len() <= u32::MAX,
                fd == spec_deposits_in(txs, treasury_id, 0, u64::MAX),
                fw == spec_withdrawals_in(txs, treasury_id, 0, u64::MAX),
                fd >= 0,
                fw >= 0,
                num_periods * period_length_secs <= u64::MAX,
                num_periods * (fd + fw) <= i128::MAX,
                fd + fw <= i128::MAX,
                (acc_d as int, acc_w as int, valid as int) == spec_forecast_acc(
                    txs,
                    treasury_id,
                    k as int,
                    period_length_secs,
                    current_time,
                ),
                0 <= acc_d,
                0 <= acc_w,
                acc_d + acc_w <= k * (fd + fw),
                valid <= k,
            decreases num_periods - k,
        {
            proof {
                assert((k as int) * (period_length_secs as int) <= (num_periods as int) * (
                period_length_secs as int)) by (nonlinear_arith)
                    requires
                        0 <= k < num_periods,
                        period_length_secs > 0,
                ;
            }
            let prod = (k as u64) * period_length_secs;
            let pe = current_time.saturating_sub(prod);
            let ps = pe.saturating_sub(period_length_secs);
            if ps < pe {
                proof {
                    lemma_window_le_full(txs, treasury_id, ps, pe, TransactionType::Deposit);
                    lemma_window_le_full(txs, treasury_id, ps, pe, TransactionType::Withdrawal);
                    lemma_window_le_full(txs, treasury_id, ps, pe, TransactionType::BountyFunding);
                    lemma_window_le_full(
                        txs,
                        treasury_id,
                        ps,
                        pe,
                        TransactionType::MilestonePayment,
                    );
                }
                let summary = self.compute_spending_summary(treasury_id, ps, pe);
                if summary.tx_count > 0 {
                    proof {
                        assert(acc_d + acc_w + (spec_deposits_in(txs, treasury_id, ps, pe)
                            + spec_withdrawals_in(txs, treasury_id, ps, pe)) <= (k + 1) * (fd
                            + fw)) by (nonlinear_arith)
                            requires
                                acc_d + acc_w <= k * (fd + fw),
                                spec_deposits_in(txs, treasury_id, ps, pe)
                                    + spec_withdrawals_in(txs, treasury_id, ps, pe) <= fd + fw,
                                spec_deposits_in(txs, treasury_id, ps, pe) >= 0,
                                spec_withdrawals_in(txs, treasury_id, ps, pe) >= 0,
                                k >= 0,
                                fd + fw >= 0,
                        ;
                        assert((k + 1) * (fd + fw) <= num_periods * (fd + fw))
                            by (nonlinear_arith)
                            requires
                                k + 1 <= num_periods,
                                fd + fw >= 0,
                        ;
                    }
                    acc_d = acc_d + summary.total_deposits;
                    acc_w = acc_w + summary.total_withdrawals;
                    valid = valid + 1;
                }
            }
            proof {
                assert(k * (fd + fw) <= (k + 1) * (fd + fw)) by (nonlinear_arith)
                    requires
                        k >= 0,
                        fd + fw >= 0,
                ;
                assert((acc_d as int, acc_w as int, valid as int) == spec_forecast_acc(
                    txs,
                    treasury_id,
                    k as int + 1,
                    period_length_secs,
                    current_time,
                ));
            }
            k = k + 1;
        }
        if valid == 0 {
            return SpendingForecast {
                projected_deposits: 0,
                projected_withdrawals: 0,
                projected_net_flow: 0,
                periods_analyzed: 0,
            };
        }
        let projected_deposits = acc_d / (valid as i128);
        let projected_withdrawals = acc_w / (valid as i128);
        SpendingForecast {
            projected_deposits,
            projected_withdrawals,
            projected_net_flow: projected_deposits - projected_withdrawals,
            periods_analyzed: valid,
        }
    }
}

/// The rows of a category breakdown: for each transaction type with settled
/// activity in the window, its display name, total amount and count, in a
/// fixed type order.
pub open spec fn spec_breakdown_rows(txs: Seq<Transaction>, tid: u64, start: u64, end: u64) -> Seq<
    (Seq<char>, int, int),
> {
    let r0 = Seq::<(Seq<char>, int, int)>::empty();
    let r1 = if spec_type_count(txs, tid, start, end, TransactionType::Deposit) > 0 {
        r0.push((
            "Deposit"@,
            spec_type_total(txs, tid, start, end, TransactionType::Deposit),
            spec_type_count(txs, tid, start, end, TransactionType::Deposit),
        ))
    } else {
        r0
    };
    let r2 = if spec_type_count(txs, tid, start, end, TransactionType::Withdrawal) > 0 {
        r1.push((
            "Withdrawal"@,
            spec_type_total(txs, tid, start, end, TransactionType::Withdrawal),
            spec_type_count(txs, tid, start, end, TransactionType::Withdrawal),
        ))
    } else {
        r1
    };
    let r3 = if spec_type_count(txs, tid, start, end, TransactionType::BountyFunding) > 0 {
        r2.push((
            "BountyFunding"@,
            spec_type_total(txs, tid, start, end, TransactionType::BountyFunding),
            spec_type_count(txs, tid, start, end, TransactionType::BountyFunding),
        ))
    } else {
        r2
    };
    let r4 = if spec_type_count(txs, tid, start, end, TransactionType::MilestonePayment) > 0 {
        r3.push((
            "MilestonePayment"@,
            spec_type_total(txs, tid, start, end, TransactionType::MilestonePayment),
            spec_type_count(txs, tid, start, end, TransactionType::MilestonePayment),
        ))
    } else {
        r3
    };
    if spec_type_count(txs, tid, start, end, TransactionType::AllowanceGrant) > 0 {
        r4.push((
            "AllowanceGrant"@,
            spec_type_total(txs, tid, start, end, TransactionType::AllowanceGrant),
            spec_type_count(txs, tid, start, end, TransactionType::AllowanceGrant),
        ))
    } else {
        r4
    }
}

/// The capped utilization of a budget row, in basis points.
pub open spec fn spec_utilization_bps(b: Budget) -> int {
    if b.allocated_amount > 0 {
        let bps = (b.spent_amount * 10000) / (b.allocated_amount as int);
        if bps > 10000 {
            10000
        } else {
            bps
        }
    } else {
        0
    }
}

/// The utilization entry reports this budget row.
pub open spec fn spec_util_matches(u: BudgetUtilization, b: Budget) -> bool {
    &&& u.category@ == b.category@
    &&& u.allocated == b.allocated_amount
    &&& u.spent == b.spent_amount
    &&& u.remaining == (if b.allocated_amount > b.spent_amount {
        b.allocated_amount - b.spent_amount
    } else {
        0
    })
    &&& u.utilization_bps == spec_utilization_bps(b)
}

impl TreasuryEngine {
    /// Groups the treasury's settled transactions in the window by type and
    /// totals each group, reporting only types with activity.
    pub fn compute_category_breakdown(
        &self,
        treasury_id: u64,
        period_start: u64,
        period_end: u64,
    ) -> (r: Vec<CategoryBreakdown>)
        requires
            self.wf(),
            self.transactions@.len() <= u32::MAX,
            spec_type_total(self.transactions@, treasury_id, period_start, period_end,
                TransactionType::Deposit) <= i128::MAX,
            spec_type_total(self.transactions@, treasury_id, period_start, period_end,
                TransactionType::Withdrawal) <= i128::MAX,
            spec_type_total(self.transactions@, treasury_id, period_start, period_end,
                TransactionType::BountyFunding) <= i128::MAX,
            spec_type_total(self.transactions@, treasury_id, period_start, period_end,
                TransactionType::MilestonePayment) <= i128::MAX,
            spec_type_total(self.transactions@, treasury_id, period_start, period_end,
                TransactionType::AllowanceGrant) <= i128::MAX,
        ensures
            ({
                let rows = spec_breakdown_rows(
                    self.transactions@,
                    treasury_id,
                    period_start,
                    period_end,
                );
                &&& r@.len() == rows.len()
                &&& forall|i: int| 0 <= i < rows.len() ==> {
                    &&& (#[trigger] r@[i]).category_name@ == rows[i].0
                    &&& r@[i].total_amount == rows[i].1
                    &&& r@[i].tx_count == rows[i].2
                }
            }),
    {
        let ghost txs = self.transactions@;
        let mut a_d: i128 = 0;
        let mut a_w: i128 = 0;
        let mut a_b: i128 = 0;
        let mut a_m: i128 = 0;
        let mut a_g: i128 = 0;
        let mut c_d: usize = 0;
        let mut c_w: usize = 0;
        let mut c_b: usize = 0;
        let mut c_m: usize = 0;
        let mut c_g: usize = 0;
        let mut i: usize = 0;
        proof {
            assert(txs.take(0) =~= Seq::<Transaction>::empty());
        }
        while i < self.transactions.len()
            invariant
                i <= self.transactions.len(),
                txs == self.transactions@,
                self.wf(),
                self.transactions@.len() <= u32::MAX,
                spec_type_total(txs, treasury_id, period_start, period_end,
                    TransactionType::Deposit) <= i128::MAX,
                spec_type_total(txs, treasury_id, period_start, period_end,
                    TransactionType::Withdrawal) <= i128::MAX,
                spec_type_total(txs, treasury_id, period_start, period_end,
                    TransactionType::BountyFunding) <= i128::MAX,
                spec_type_total(txs, treasury_id, period_start, period_end,
                    TransactionType::MilestonePayment) <= i128::MAX,
                spec_type_total(txs, treasury_id, period_start, period_end,
                    TransactionType::AllowanceGrant) <= i128::MAX,
                a_d == spec_type_total(txs.take(i as int), treasury_id, period_start, period_end,
                    TransactionType::Deposit),
                a_w == spec_type_total(txs.take(i as int), treasury_id, period_start, period_end,
                    TransactionType::Withdrawal),
                a_b == spec_type_total(txs.take(i as int), treasury_id, period_start, period_end,
                    TransactionType::BountyFunding),
                a_m == spec_type_total(txs.take(i as int), treasury_id, period_start, period_end,
                    TransactionType::MilestonePayment),
                a_g == spec_type_total(txs.take(i as int), treasury_id, period_start, period_end,
                    TransactionType::AllowanceGrant),
                c_d == spec_type_count(txs.take(i as int), treasury_id, period_start, period_end,
                    TransactionType::Deposit),
                c_w == spec_type_count(txs.take(i as int), treasury_id, period_start, period_end,
                    TransactionType::Withdrawal),
                c_b == spec_type_count(txs.take(i as int), treasury_id, period_start, period_end,
                    TransactionType::BountyFunding),
                c_m == spec_type_count(txs.take(i as int), treasury_id, period_start, period_end,
                    TransactionType::MilestonePayment),
                c_g == spec_type_count(txs.take(i as int), treasury_id, period_start, period_end,
                    TransactionType::AllowanceGrant),
                c_d <= i && c_w <= i && c_b <= i && c_m <= i && c_g <= i,
            decreases self.transactions.len() - i,
        {
            proof {
                assert(txs.take(i as int + 1).drop_last() =~= txs.take(i as int));
                assert(txs.take(i as int + 1).last() == txs[i as int]);
                assert(forall|k: int| 0 <= k < txs.len() ==> (#[trigger] txs[k]).amount > 0);
                lemma_type_total_prefix(txs, treasury_id, period_start, period_end,
                    TransactionType::Deposit, i as int + 1);
                lemma_type_total_prefix(txs, treasury_id, period_start, period_end,
                    TransactionType::Withdrawal, i as int + 1);
                lemma_type_total_prefix(txs, treasury_id, period_start, period_end,
                    TransactionType::BountyFunding, i as int + 1);
                lemma_type_total_prefix(txs, treasury_id, period_start, period_end,
                    TransactionType::MilestonePayment, i as int + 1);
                lemma_type_total_prefix(txs, treasury_id, period_start, period_end,
                    TransactionType::AllowanceGrant, i as int + 1);
                lemma_type_total_prefix(txs, treasury_id, period_start, period_end,
                    TransactionType::Deposit, i as int);
                lemma_type_total_prefix(txs, treasury_id, period_start, period_end,
                    TransactionType::Withdrawal, i as int);
                lemma_type_total_prefix(txs, treasury_id, period_start, period_end,
                    TransactionType::BountyFunding, i as int);
                lemma_type_total_prefix(txs, treasury_id, period_start, period_end,
                    TransactionType::MilestonePayment, i as int);
                lemma_type_total_prefix(txs, treasury_id, period_start, period_end,
                    TransactionType::AllowanceGrant, i as int);
            }
            let tx = &self.transactions[i];
            let counted = is_executed(tx) && tx.created_at >= period_start
                && tx.created_at <= period_end && tx.treasury_id == treasury_id;
            if counted {
                match tx.tx_type {
                    TransactionType::Deposit => {
                        a_d = a_d + tx.amount;
                        c_d = c_d + 1;
                    },
                    TransactionType::Withdrawal => {
                        a_w = a_w + tx.amount;
                        c_w = c_w + 1;
                    },
                    TransactionType::BountyFunding => {
                        a_b = a_b + tx.amount;
                        c_b = c_b + 1;
                    },
                    TransactionType::MilestonePayment => {
                        a_m = a_m + tx.amount;
                        c_m = c_m + 1;
                    },
                    TransactionType::AllowanceGrant => {
                        a_g = a_g + tx.amount;
                        c_g = c_g + 1;
                    },
                }
            }
            i = i + 1;
        }
        proof {
            assert(txs.take(txs.len() as int) =~= txs);
        }
        let mut result: Vec<CategoryBreakdown> = Vec::new();
        if c_d > 0 {
            result.push(CategoryBreakdown {
                category_name: "Deposit".to_owned(),
                total_amount: a_d,
                tx_count: c_d as u32,
            });
        }
        if c_w > 0 {
            result.push(CategoryBreakdown {
                category_name: "Withdrawal".to_owned(),
                total_amount: a_w,
                tx_count: c_w as u32,
            });
        }
        if c_b > 0 {
            result.push(CategoryBreakdown {
                category_name: "BountyFunding".to_owned(),
                total_amount: a_b,
                tx_count: c_b as u32,
            });
        }
        if c_m > 0 {
            result.push(CategoryBreakdown {
                category_name: "MilestonePayment".to_owned(),
                total_amount: a_m,
                tx_count: c_m as u32,
            });
        }
        if c_g > 0 {
            result.push(CategoryBreakdown {
                category_name: "AllowanceGrant".to_owned(),
                total_amount: a_g,
                tx_count: c_g as u32,
            });
        }
        result
    }

    /// Reports, for every budget row of the treasury, how much of its cap the
    /// current period has used.
    pub fn compute_budget_utilization(&self, treasury_id: u64) -> (r: Vec<BudgetUtilization>)
        requires
            self.wf(),
            forall|i: int| 0 <= i < self.budgets@.len()
                && (#[trigger] self.budgets@[i]).treasury_id == treasury_id
                ==> self.budgets@[i].spent_amount * 10000 <= i128::MAX,
        ensures
            ({
                let f = self.budgets@.filter(|b: Budget| b.treasury_id == treasury_id);
                &&& r@.len() == f.len()
                &&& forall|i: int| 0 <= i < f.len() ==> spec_util_matches(#[trigger] r@[i], f[i])
            }),
    {
        let ghost p = |b: Budget| b.treasury_id == treasury_id;
        let mut result: Vec<BudgetUtilization> = Vec::new();
        proof {
            reveal(Seq::filter);
            assert(self.budgets@.take(0).filter(p) =~= Seq::<Budget>::empty());
        }
        let mut i: usize = 0;
        while i < self.budgets.len()
            invariant
                i <= self.budgets.len(),
                self.wf(),
                forall|k: int| 0 <= k < self.budgets@.len()
                    && (#[trigger] self.budgets@[k]).treasury_id == treasury_id
                    ==> self.budgets@[k].spent_amount * 10000 <= i128::MAX,
                result@.len() == self.budgets@.take(i as int).filter(p).len(),
                forall|j: int| 0 <= j < result@.len() ==> spec_util_matches(
                    #[trigger] result@[j],
                    self.budgets@.take(i as int).filter(p)[j],
                ),
                p == (|b: Budget| b.treasury_id == treasury_id),
            decreases self.budgets.len() - i,
        {
            proof {
                reveal(Seq::filter);
                let s = self.budgets@;
                assert(s.take(i as int + 1).drop_last() =~= s.take(i as int));
                assert(s.take(i as int + 1).last() == s[i as int]);
                assert(p(s[i as int]) == (s[i as int].treasury_id == treasury_id));
                assert(s.take(i as int + 1).filter(p) == if p(s[i as int]) {
                    s.take(i as int).filter(p).push(s[i as int])
                } else {
                    s.take(i as int).filter(p)
                });
            }
            let b = &self.budgets[i];
            if b.treasury_id == treasury_id {
                let remaining: i128 = if b.allocated_amount > b.spent_amount {
                    b.allocated_amount - b.spent_amount
                } else {
                    0
                };
                let utilization_bps: u32 = if b.allocated_amount > 0 {
                    let bps = (b.spent_amount * 10000) / b.allocated_amount;
                    if bps > 10000 {
                        10000u32
                    } else {
                        bps as u32
                    }
                } else {
                    0u32
                };
                result.push(BudgetUtilization {
                    category: b.category.clone(),
                    allocated: b.allocated_amount,
                    spent: b.spent_amount,
                    remaining,
                    utilization_bps,
                });
            }
            i = i + 1;
        }
        proof {
            assert(self.budgets@.take(self.budgets@.len() as int) =~= self.budgets@);
            assert(p =~= (|b: Budget| b.treasury_id == treasury_id));
        }
        result
    }
}

/// A bounded log of balance snapshots for one treasury: at most
/// `MAX_SNAPSHOTS` entries are retained, the oldest being evicted first,
/// while a counter remembers how many were ever recorded.
pub struct SnapshotLog {
    pub snapshots: Vec<TreasurySnapshot>,
    pub total_recorded: u32,
}

/// Maximum number of snapshots retained per treasury to bound storage growth.
pub const MAX_SNAPSHOTS: usize = 200;

impl SnapshotLog {
    /// An empty log.
    pub fn new() -> (r: SnapshotLog)
        ensures
            r.snapshots@.len() == 0,
            r.total_recorded == 0,
    {
        SnapshotLog { snapshots: Vec::new(), total_recorded: 0 }
    }

    /// Appends a snapshot, evicting the oldest entry once the cap is reached,
    /// and counts it.
    pub fn store_snapshot(&mut self, snapshot: TreasurySnapshot)
        requires
            old(self).total_recorded < u32::MAX,
            old(self).snapshots@.len() <= MAX_SNAPSHOTS,
        ensures
            final(self).total_recorded == old(self).total_recorded + 1,
            old(self).snapshots@.len() < MAX_SNAPSHOTS ==> final(self).snapshots@
                == old(self).snapshots@.push(snapshot),
            old(self).snapshots@.len() >= MAX_SNAPSHOTS ==> final(self).snapshots@
                == old(self).snapshots@.skip(1).push(snapshot),
    {
        if self.snapshots.len() >= MAX_SNAPSHOTS {
            self.snapshots.remove(0);
            proof {
                assert(self.snapshots@ =~= old(self).snapshots@.skip(1));
            }
        }
        self.snapshots.push(snapshot);
        self.total_recorded = self.total_recorded + 1;
    }

    /// The most recent `limit` snapshots, oldest first (all of them when
    /// fewer exist).
    pub fn get_snapshots(&self, limit: u32) -> (r: Vec<TreasurySnapshot>)
        ensures
            ({
                let s = self.snapshots@;
                let h = if s.len() <= limit {
                    s
                } else {
                    s.skip(s.len() - limit as int)
                };
                r@ == h
            }),
    {
        let len = self.snapshots.len();
        let mut r: Vec<TreasurySnapshot> = Vec::new();
        let start: usize = if (len as u64) <= (limit as u64) {
            0
        } else {
            len - (limit as usize)
        };
        let mut i: usize = start;
        while i < len
            invariant
                start <= i <= len,
                len == self.snapshots@.len(),
                r@ == self.snapshots@.subrange(start as int, i as int),
            decreases len - i,
        {
            r.push(self.snapshots[i]);
            proof {
                assert(r@ =~= self.snapshots@.subrange(start as int, i as int + 1));
            }
            i = i + 1;
        }
        proof {
            let s = self.snapshots@;
            if s.len() <= limit {
                assert(r@ =~= s);
            } else {
                assert(r@ =~= s.skip(s.len() - limit as int));
            }
        }
        r
    }

    /// The total number of snapshots ever recorded, including evicted ones.
    pub fn get_snapshot_count(&self) -> (r: u32)
        ensures
            r == self.total_recorded,
    {
        self.total_recorded
    }
}

/// Compares two spending summaries, reporting each aggregate's change in
/// basis points.
pub fn compute_trend(period1: &SpendingSummary, period2: &SpendingSummary) -> (r: SpendingTrend)
    requires
        (period2.total_deposits - period1.total_deposits) * 10000 <= i128::MAX,
        (period2.total_deposits - period1.total_deposits) * 10000 >= i128::MIN,
        i64::MIN <= spec_pct_change_bps(
            period1.total_deposits as int,
            period2.total_deposits as int,
        ) <= i64::MAX,
        (period2.total_withdrawals - period1.total_withdrawals) * 10000 <= i128::MAX,
        (period2.total_withdrawals - period1.total_withdrawals) * 10000 >= i128::MIN,
        i64::MIN <= spec_pct_change_bps(
            period1.total_withdrawals as int,
            period2.total_withdrawals as int,
        ) <= i64::MAX,
        (period2.net_flow - period1.net_flow) * 10000 <= i128::MAX,
        (period2.net_flow - period1.net_flow) * 10000 >= i128::MIN,
        i64::MIN <= spec_pct_change_bps(period1.net_flow as int, period2.net_flow as int)
            <= i64::MAX,
    ensures
        r.deposits_change_bps == spec_pct_change_bps(
            period1.total_deposits as int,
            period2.total_deposits as int,
        ),
        r.withdrawals_change_bps == spec_pct_change_bps(
            period1.total_withdrawals as int,
            period2.total_withdrawals as int,
        ),
        r.net_flow_change_bps == spec_pct_change_bps(
            period1.net_flow as int,
            period2.net_flow as int,
        ),
{
    SpendingTrend {
        deposits_change_bps: pct_change_bps(period1.total_deposits, period2.total_deposits),
        withdrawals_change_bps: pct_change_bps(
            period1.total_withdrawals,
            period2.total_withdrawals,
        ),
        net_flow_change_bps: pct_change_bps(period1.net_flow, period2.net_flow),
    }
}

} // verus!
