//! Laws of the treasury engine, stated and proved once for every state the
//! operations can reach. Each public operation ensures `wf()` of the final
//! state, so whatever follows from `wf()` here holds after any sequence of
//! operations.

use vstd::prelude::*;
use crate::management::{
    spec_rolled_allowance, spec_rolled_budget, TreasuryEngine,
};
use crate::multisig::spec_required_approvals;
use crate::types::{
    addrs_unique, allowance_at, allowance_has, lemma_allowance_idx, lemma_tb_lookup_le_sum,
    tb_lookup, tb_sum, Allowance, Budget, Transaction, Treasury,
};

verus! {

/// Balances are never negative: in every well-formed state, the native
/// balance and every issued-token balance of every treasury are at least 0.
pub proof fn lemma_balances_nonnegative(e: TreasuryEngine, treasury_id: u64)
    requires
        e.wf(),
        e.has_treasury(treasury_id),
    ensures
        e.treasury_at(treasury_id).balance_xlm >= 0,
        forall|token: u64| tb_lookup(e.treasury_at(treasury_id).token_balances@, token) >= 0,
{
    assert forall|token: u64|
        tb_lookup(e.treasury_at(treasury_id).token_balances@, token) >= 0 by {
        lemma_tb_lookup_le_sum(e.treasury_at(treasury_id).token_balances@, token);
    }
}

/// Conservation of funds: what a treasury holds, plus everything it ever
/// paid out, is exactly everything it ever took in — so the flow counters
/// never decrease below each other and every balance is bounded by the total
/// ever deposited.
pub proof fn lemma_funds_conserved(e: TreasuryEngine, treasury_id: u64)
    requires
        e.wf(),
        e.has_treasury(treasury_id),
    ensures
        ({
            let t = e.treasury_at(treasury_id);
            &&& t.balance_xlm + tb_sum(t.token_balances@) + t.total_withdrawals
                == t.total_deposits
            &&& 0 <= t.total_withdrawals <= t.total_deposits
            &&& t.balance_xlm <= t.total_deposits
        }),
{
    lemma_tb_lookup_le_sum(e.treasury_at(treasury_id).token_balances@, 0);
}

/// Approvals never double-count: in every well-formed state, no address
/// occurs twice in any transaction's approval list.
pub proof fn lemma_approvals_distinct(e: TreasuryEngine, tx_id: u64)
    requires
        e.wf(),
        e.has_tx(tx_id),
    ensures
        addrs_unique(e.tx_at(tx_id).approvals@),
{
}

/// The required-approvals rule always asks for at least one approval and
/// never for more than the treasury's own threshold.
pub proof fn lemma_required_approvals_bounds(t: Treasury, tx: Transaction)
    requires
        t.wf(),
    ensures
        1 <= spec_required_approvals(t, tx),
        spec_required_approvals(t, tx) <= t.approval_threshold,
{
}

/// Budget periods roll over exactly once: when enforcement at `n1` finds the
/// period elapsed, it restarts spending from zero at `n1`, and any further
/// enforcement before that new period ends leaves the row's clock alone.
pub proof fn lemma_budget_rollover_once(b: Budget, n1: u64, n2: u64)
    requires
        b.period_seconds > 0,
        n1 >= b.period_start.saturating_add(b.period_seconds),
        n1 <= n2,
        n2 < n1.saturating_add(b.period_seconds),
    ensures
        spec_rolled_budget(b, n1).spent_amount == 0,
        spec_rolled_budget(b, n1).period_start == n1,
        spec_rolled_budget(spec_rolled_budget(b, n1), n2) == spec_rolled_budget(b, n1),
{
}

/// Budget enforcement respects the cap: when a charge passes enforcement
/// against a budget row with a positive cap, the period's spending after the
/// charge is still within the cap (and spending never goes negative).
pub proof fn lemma_budget_charge_respects_cap(b: Budget, amount: i128, now: u64)
    requires
        b.wf(),
        amount > 0,
        crate::management::spec_budget_allows(spec_rolled_budget(b, now), amount as int),
    ensures
        ({
            let b0 = spec_rolled_budget(b, now);
            &&& b0.spent_amount + amount > 0
            &&& b0.allocated_amount > 0 ==> b0.spent_amount + amount <= b0.allocated_amount
        }),
{
}

/// An allowance's remainder always stays between zero and the per-period
/// grant, in every well-formed state.
pub proof fn lemma_allowance_remaining_bounds(
    e: TreasuryEngine,
    treasury_id: u64,
    admin: u64,
    token: Option<u64>,
)
    requires
        e.wf(),
        allowance_has(e.allowances@, treasury_id, admin, token),
    ensures
        ({
            let a = allowance_at(e.allowances@, treasury_id, admin, token);
            0 <= a.remaining_amount && a.remaining_amount <= a.amount_per_period
        }),
{
    lemma_allowance_idx(e.allowances@, treasury_id, admin, token);
}

/// Allowance periods roll over exactly once, resetting the remainder to the
/// full per-period grant: a second enforcement before the new period ends
/// does not reset again.
pub proof fn lemma_allowance_rollover_once(a: Allowance, n1: u64, n2: u64)
    requires
        a.period_seconds > 0,
        n1 >= a.period_start.saturating_add(a.period_seconds),
        n1 <= n2,
        n2 < n1.saturating_add(a.period_seconds),
    ensures
        spec_rolled_allowance(a, n1).remaining_amount == a.amount_per_period,
        spec_rolled_allowance(a, n1).period_start == n1,
        spec_rolled_allowance(spec_rolled_allowance(a, n1), n2) == spec_rolled_allowance(a, n1),
{
}

/// Every budget row's spending in the current period is bounded by the
/// treasury's lifetime withdrawals, in every well-formed state.
pub proof fn lemma_budget_spending_bounded(e: TreasuryEngine, i: int)
    requires
        e.wf(),
        0 <= i < e.budgets@.len(),
    ensures
        0 <= e.budgets@[i].spent_amount,
        e.budgets@[i].spent_amount
            <= e.treasury_at(e.budgets@[i].treasury_id).total_withdrawals,
{
}

} // verus!
