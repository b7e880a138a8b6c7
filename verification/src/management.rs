//! The treasury engine: every public operation of the platform, as a pure
//! transition of one state value.
//!
//! Each operation either completes and reports `Ok`, or fails and leaves the
//! state exactly as it was — with one deliberate exception: a call that
//! observes an expired transaction persists its `Expired` status before
//! failing, so that expiry is recorded lazily on first touch.
//!
//! The host that drives the engine must authenticate the acting address of
//! each call (depositor, proposer, approver, executor, owner, signer) before
//! forwarding it; the engine checks membership and capability, not identity.

use vstd::prelude::*;
use crate::multisig::{
    required_approvals_for_tx, spec_required_approvals, spec_should_expire, threshold_ok,
    validate_threshold, TX_EXPIRY_SECONDS,
};
use crate::types::{
    allowance_at, allowance_has, allowance_idx, allowance_key, budget_at, budget_has,
    budget_idx, budget_key, contains_addr, dedup, lemma_allowance_idx, lemma_allowance_idx_is,
    lemma_budget_idx, lemma_budget_idx_is, lemma_dedup, lemma_tb_lookup_at,
    lemma_tb_lookup_absent, lemma_tb_lookup_le_sum, lemma_tb_push, lemma_tb_update, tb_has,
    tb_lookup, tx_eq, Allowance, Budget, TokenBalance, Transaction, TransactionStatus,
    TransactionType, Treasury, TreasuryError,
};

verus! {

/// The high-value threshold every new treasury starts with.
pub const DEFAULT_HIGH_VALUE_THRESHOLD: i128 = 1000;

/// The two treasuries agree on everything but balances and flow counters.
pub open spec fn treasury_same_config(t: Treasury, t2: Treasury) -> bool {
    &&& t2.id == t.id
    &&& t2.guild_id == t.guild_id
    &&& t2.owner == t.owner
    &&& t2.signers@ == t.signers@
    &&& t2.approval_threshold == t.approval_threshold
    &&& t2.high_value_threshold == t.high_value_threshold
    &&& t2.paused == t.paused
}

/// `t2` is `t` after `amount` of `token` was moved in (positive `amount`)
/// or out (negative `amount`), with the deposit/withdrawal counters advanced.
pub open spec fn spec_funds_moved(t: Treasury, t2: Treasury, token: Option<u64>, amount: int) -> bool {
    &&& treasury_same_config(t, t2)
    &&& if amount >= 0 {
        t2.total_deposits == t.total_deposits + amount && t2.total_withdrawals
            == t.total_withdrawals
    } else {
        t2.total_deposits == t.total_deposits && t2.total_withdrawals
            == t.total_withdrawals - amount
    }
    &&& match token {
        Option::None => t2.balance_xlm == t.balance_xlm + amount && t2.token_balances@
            == t.token_balances@,
        Option::Some(tok) => {
            &&& t2.balance_xlm == t.balance_xlm
            &&& tb_lookup(t2.token_balances@, tok) == tb_lookup(t.token_balances@, tok) + amount
            &&& forall|o: u64| o != tok ==> tb_lookup(t2.token_balances@, o) == tb_lookup(
                t.token_balances@,
                o,
            )
        },
    }
}

/// How many approvals a value-moving transaction of this amount needs.
pub open spec fn spec_required_for_amount(t: Treasury, amount: i128) -> u32 {
    if amount >= t.high_value_threshold {
        t.approval_threshold
    } else {
        if t.approval_threshold < 1 {
            t.approval_threshold
        } else {
            1u32
        }
    }
}

/// The transaction recorded for a withdrawal proposal: it starts with the
/// proposer's implicit approval and is already `Approved` when one approval
/// satisfies the required-approvals rule.
pub open spec fn spec_withdrawal_tx(
    tx: Transaction,
    t: Treasury,
    id: int,
    treasury_id: u64,
    proposer: u64,
    recipient: u64,
    amount: i128,
    token: Option<u64>,
    reason: Seq<char>,
    now: u64,
) -> bool {
    &&& tx.id == id
    &&& tx.treasury_id == treasury_id
    &&& tx.tx_type == TransactionType::Withdrawal
    &&& tx.amount == amount
    &&& tx.token == token
    &&& tx.recipient == Some(recipient)
    &&& tx.proposer == proposer
    &&& tx.approvals@ == seq![proposer]
    &&& tx.status == (if spec_required_for_amount(t, amount) <= 1 {
        TransactionStatus::Approved
    } else {
        TransactionStatus::Pending
    })
    &&& tx.created_at == now
    &&& tx.expires_at == now + TX_EXPIRY_SECONDS
    &&& tx.reason@ == reason
}

/// The budget row as `set_budget` leaves an existing row: the period length
/// is updated first, the period is rolled over if it has already elapsed
/// under the new length, and the cap is then set.
pub open spec fn spec_budget_reconfigured(b: Budget, amount: i128, period_seconds: u64, now: u64) -> Budget {
    let b1 = (Budget { period_seconds, ..b });
    let b2 = if now >= b1.period_start.saturating_add(period_seconds) {
        (Budget { period_start: now, spent_amount: 0, ..b1 })
    } else {
        b1
    };
    (Budget { allocated_amount: amount, ..b2 })
}

/// The budget row after the lazy period rollover that enforcement applies:
/// once a positive period has elapsed, spending restarts from zero at `now`.
pub open spec fn spec_rolled_budget(b: Budget, now: u64) -> Budget {
    if b.period_seconds > 0 && now >= b.period_start.saturating_add(b.period_seconds) {
        (Budget { period_start: now, spent_amount: 0, ..b })
    } else {
        b
    }
}

/// Whether a charge of `amount` fits the (already rolled-over) budget row; a
/// cap of 0 means unlimited.
pub open spec fn spec_budget_allows(b: Budget, amount: int) -> bool {
    !(b.allocated_amount > 0 && b.spent_amount + amount > b.allocated_amount)
}

/// The allowance row after the lazy period rollover: once a positive period
/// has elapsed, the remaining amount resets to the full per-period grant.
pub open spec fn spec_rolled_allowance(a: Allowance, now: u64) -> Allowance {
    if a.period_seconds > 0 && now >= a.period_start.saturating_add(a.period_seconds) {
        (Allowance { period_start: now, remaining_amount: a.amount_per_period, ..a })
    } else {
        a
    }
}

/// The budget category charged for each transaction type.
pub open spec fn spec_category_of(tt: TransactionType) -> Seq<char> {
    match tt {
        TransactionType::Withdrawal => "withdrawal"@,
        TransactionType::BountyFunding => "bounty"@,
        TransactionType::MilestonePayment => "milestone"@,
        _ => "other"@,
    }
}

/// Whether a charge of `amount` against the category passes budget
/// enforcement at time `now`. A treasury without a row for the category
/// passes (the row is then created lazily).
pub open spec fn spec_budget_charge_ok(
    budgets: Seq<Budget>,
    tid: u64,
    cat: Seq<char>,
    amount: i128,
    now: u64,
) -> bool {
    budget_has(budgets, tid, cat) ==> spec_budget_allows(
        spec_rolled_budget(budget_at(budgets, tid, cat), now),
        amount as int,
    )
}

/// How a successful charge of `amount` changes the budget rows: the row for
/// the category is rolled over and debited, or created with the charge as its
/// first spending; every other row is untouched.
pub open spec fn spec_budgets_charged(
    budgets: Seq<Budget>,
    budgets2: Seq<Budget>,
    tid: u64,
    cat: Seq<char>,
    amount: i128,
    now: u64,
) -> bool {
    if budget_has(budgets, tid, cat) {
        let b0 = spec_rolled_budget(budget_at(budgets, tid, cat), now);
        budgets2 == budgets.update(
            budget_idx(budgets, tid, cat),
            (Budget { spent_amount: (b0.spent_amount + amount) as i128, ..b0 }),
        )
    } else {
        let b = budgets2.last();
        &&& budgets2.len() == budgets.len() + 1
        &&& forall|i: int| 0 <= i < budgets.len() ==> budgets2[i] == budgets[i]
        &&& b.treasury_id == tid
        &&& b.category@ == cat
        &&& b.allocated_amount == 0
        &&& b.spent_amount == amount
        &&& b.period_seconds == 0
        &&& b.period_start == now
    }
}

/// Whether a charge of `amount` against the executor's allowance passes
/// enforcement at time `now`. Allowances are opt-in: no row, no constraint.
pub open spec fn spec_allowance_charge_ok(
    allowances: Seq<Allowance>,
    tid: u64,
    admin: u64,
    token: Option<u64>,
    amount: i128,
    now: u64,
) -> bool {
    allowance_has(allowances, tid, admin, token) ==> spec_rolled_allowance(
        allowance_at(allowances, tid, admin, token),
        now,
    ).remaining_amount >= amount
}

/// How a successful charge of `amount` changes the allowance rows: the
/// executor's row, if any, is rolled over and debited; nothing else changes.
pub open spec fn spec_allowances_charged(
    allowances: Seq<Allowance>,
    allowances2: Seq<Allowance>,
    tid: u64,
    admin: u64,
    token: Option<u64>,
    amount: i128,
    now: u64,
) -> bool {
    if allowance_has(allowances, tid, admin, token) {
        let a0 = spec_rolled_allowance(allowance_at(allowances, tid, admin, token), now);
        allowances2 == allowances.update(
            allowance_idx(allowances, tid, admin, token),
            (Allowance { remaining_amount: (a0.remaining_amount - amount) as i128, ..a0 }),
        )
    } else {
        allowances2 == allowances
    }
}

/// The most recent `limit` transactions of the treasury, oldest to newest.
pub open spec fn spec_treasury_history(txs: Seq<Transaction>, tid: u64, limit: u32) -> Seq<Transaction> {
    let f = txs.filter(|t: Transaction| t.treasury_id == tid);
    if f.len() <= limit {
        f
    } else {
        f.skip(f.len() - limit as int)
    }
}

/// The transaction recorded for a settled milestone payment.
pub open spec fn spec_milestone_tx(
    tx: Transaction,
    id: int,
    treasury_id: u64,
    executor: u64,
    recipient: u64,
    amount: i128,
    token: Option<u64>,
    now: u64,
) -> bool {
    &&& tx.id == id
    &&& tx.treasury_id == treasury_id
    &&& tx.tx_type == TransactionType::MilestonePayment
    &&& tx.amount == amount
    &&& tx.token == token
    &&& tx.recipient == Some(recipient)
    &&& tx.proposer == executor
    &&& tx.approvals@.len() == 0
    &&& tx.status == TransactionStatus::Executed
    &&& tx.created_at == now
    &&& tx.expires_at == now
    &&& tx.reason@ == "milestone_payment"@
}

/// The transaction recorded for a settled deposit.
pub open spec fn spec_deposit_tx(
    tx: Transaction,
    id: int,
    treasury_id: u64,
    depositor: u64,
    amount: i128,
    token: Option<u64>,
    now: u64,
) -> bool {
    &&& tx.id == id
    &&& tx.treasury_id == treasury_id
    &&& tx.tx_type == TransactionType::Deposit
    &&& tx.amount == amount
    &&& tx.token == token
    &&& tx.recipient is None
    &&& tx.proposer == depositor
    &&& tx.approvals@.len() == 0
    &&& tx.status == TransactionStatus::Executed
    &&& tx.created_at == now
    &&& tx.expires_at == now
    &&& tx.reason@ == "deposit"@
}

/// The whole persistent state of the treasury subsystem.
///
/// Treasuries and transactions are arenas: the entity with identifier `n`
/// lives at index `n - 1`, identifiers are assigned monotonically and never
/// reused. Budgets and allowances are association vectors with unique keys.
pub struct TreasuryEngine {
    pub treasuries: Vec<Treasury>,
    pub transactions: Vec<Transaction>,
    pub budgets: Vec<Budget>,
    pub allowances: Vec<Allowance>,
}

/// First index holding `tok`, or the length when no entry does.
fn find_token(v: &Vec<TokenBalance>, tok: u64) -> (r: usize)
    ensures
        r <= v@.len(),
        forall|j: int| 0 <= j < r ==> v@[j].token != tok,
        r < v@.len() ==> v@[r as int].token == tok,
        r == v@.len() ==> !tb_has(v@, tok),
{
    let mut i: usize = 0;
    while i < v.len()
        invariant
            i <= v.len(),
            forall|j: int| 0 <= j < i ==> v@[j].token != tok,
        decreases v.len() - i,
    {
        if v[i].token == tok {
            return i;
        }
        i = i + 1;
    }
    i
}

/// The budget category name charged for each transaction type.
fn category_of(tt: TransactionType) -> (r: String)
    ensures
        r@ == spec_category_of(tt),
{
    match tt {
        TransactionType::Withdrawal => "withdrawal".to_owned(),
        TransactionType::BountyFunding => "bounty".to_owned(),
        TransactionType::MilestonePayment => "milestone".to_owned(),
        _ => "other".to_owned(),
    }
}

/// First index of the budget row for `(tid, cat)`, or the length when none.
fn find_budget(v: &Vec<Budget>, tid: u64, cat: &String) -> (r: usize)
    ensures
        r <= v@.len(),
        forall|j: int| 0 <= j < r ==> !budget_key(v@[j], tid, cat@),
        r < v@.len() ==> budget_key(v@[r as int], tid, cat@),
{
    let mut i: usize = 0;
    while i < v.len()
        invariant
            i <= v.len(),
            forall|j: int| 0 <= j < i ==> !budget_key(v@[j], tid, cat@),
        decreases v.len() - i,
    {
        if v[i].treasury_id == tid && v[i].category == *cat {
            return i;
        }
        i = i + 1;
    }
    i
}

/// First index of the allowance row for `(tid, admin, token)`, or the length
/// when none.
fn find_allowance(v: &Vec<Allowance>, tid: u64, admin: u64, token: Option<u64>) -> (r: usize)
    ensures
        r <= v@.len(),
        forall|j: int| 0 <= j < r ==> !allowance_key(v@[j], tid, admin, token),
        r < v@.len() ==> allowance_key(v@[r as int], tid, admin, token),
{
    let mut i: usize = 0;
    while i < v.len()
        invariant
            i <= v.len(),
            forall|j: int| 0 <= j < i ==> !allowance_key(v@[j], tid, admin, token),
        decreases v.len() - i,
    {
        let same_token = match (v[i].token, token) {
            (None, None) => true,
            (Some(a), Some(b)) => a == b,
            _ => false,
        };
        if v[i].treasury_id == tid && v[i].admin == admin && same_token {
            return i;
        }
        i = i + 1;
    }
    i
}

impl TreasuryEngine {
    /// A treasury with this identifier exists.
    pub open spec fn has_treasury(self, tid: u64) -> bool {
        1 <= tid && tid <= self.treasuries@.len()
    }

    /// The treasury with identifier `tid` (meaningful only if it exists).
    pub open spec fn treasury_at(self, tid: u64) -> Treasury {
        self.treasuries@[tid - 1]
    }

    /// A transaction with this identifier exists.
    pub open spec fn has_tx(self, id: u64) -> bool {
        1 <= id && id <= self.transactions@.len()
    }

    /// The transaction with identifier `id` (meaningful only if it exists).
    pub open spec fn tx_at(self, id: u64) -> Transaction {
        self.transactions@[id - 1]
    }

    pub open spec fn wf_treasuries(self) -> bool {
        forall|i: int| 0 <= i < self.treasuries@.len() ==> {
            &&& (#[trigger] self.treasuries@[i]).wf()
            &&& self.treasuries@[i].id == i + 1
        }
    }

    pub open spec fn wf_transactions(self) -> bool {
        forall|i: int| 0 <= i < self.transactions@.len() ==> {
            &&& (#[trigger] self.transactions@[i]).wf()
            &&& self.transactions@[i].id == i + 1
            &&& self.has_treasury(self.transactions@[i].treasury_id)
        }
    }

    pub open spec fn wf_budgets(self) -> bool {
        &&& forall|i: int, j: int| 0 <= i < j < self.budgets@.len()
            ==> !budget_key(
                #[trigger] self.budgets@[i],
                (#[trigger] self.budgets@[j]).treasury_id,
                self.budgets@[j].category@,
            )
        &&& forall|i: int| 0 <= i < self.budgets@.len() ==> {
            &&& (#[trigger] self.budgets@[i]).wf()
            &&& self.has_treasury(self.budgets@[i].treasury_id)
            &&& self.budgets@[i].spent_amount
                <= self.treasury_at(self.budgets@[i].treasury_id).total_withdrawals
        }
    }

    pub open spec fn wf_allowances(self) -> bool {
        &&& forall|i: int, j: int| 0 <= i < j < self.allowances@.len()
            ==> !allowance_key(
                #[trigger] self.allowances@[i],
                (#[trigger] self.allowances@[j]).treasury_id,
                self.allowances@[j].admin,
                self.allowances@[j].token,
            )
        &&& forall|i: int| 0 <= i < self.allowances@.len() ==> {
            &&& (#[trigger] self.allowances@[i]).wf()
            &&& self.has_treasury(self.allowances@[i].treasury_id)
        }
    }

    /// Invariant of the whole engine, preserved by every operation.
    pub open spec fn wf(self) -> bool {
        &&& self.wf_treasuries()
        &&& self.wf_transactions()
        &&& self.wf_budgets()
        &&& self.wf_allowances()
    }

    /// An engine with no treasuries, transactions, budgets or allowances.
    pub fn new() -> (r: TreasuryEngine)
        ensures
            r.wf(),
            r.treasuries@.len() == 0,
            r.transactions@.len() == 0,
            r.budgets@.len() == 0,
            r.allowances@.len() == 0,
    {
        TreasuryEngine {
            treasuries: Vec::new(),
            transactions: Vec::new(),
            budgets: Vec::new(),
            allowances: Vec::new(),
        }
    }

    /// The treasury with this identifier, if it exists.
    pub fn get_treasury(&self, treasury_id: u64) -> (r: Option<&Treasury>)
        ensures
            match r {
                Option::Some(t) => self.has_treasury(treasury_id)
                    && *t == self.treasury_at(treasury_id),
                Option::None => !self.has_treasury(treasury_id),
            },
    {
        if treasury_id >= 1 && treasury_id <= self.treasuries.len() as u64 {
            Some(&self.treasuries[(treasury_id - 1) as usize])
        } else {
            None
        }
    }

    /// The transaction with this identifier, if it exists.
    pub fn get_transaction(&self, tx_id: u64) -> (r: Option<&Transaction>)
        ensures
            match r {
                Option::Some(tx) => self.has_tx(tx_id) && *tx == self.tx_at(tx_id),
                Option::None => !self.has_tx(tx_id),
            },
    {
        if tx_id >= 1 && tx_id <= self.transactions.len() as u64 {
            Some(&self.transactions[(tx_id - 1) as usize])
        } else {
            None
        }
    }

    /// Creates a treasury for `guild_id` with the deduplicated `signers` and
    /// the given M-of-N threshold; the first signer becomes the owner. The
    /// host must have authenticated that first signer. Fails with
    /// `InvalidThreshold` when the signer list is empty or the threshold is
    /// not between ceil(N/2) and N for the N distinct signers.
    pub fn initialize_treasury(
        &mut self,
        guild_id: u64,
        signers: Vec<u64>,
        approval_threshold: u32,
    ) -> (r: Result<u64, TreasuryError>)
        requires
            old(self).wf(),
            signers@.len() <= u32::MAX,
            old(self).treasuries@.len() < u64::MAX,
        ensures
            final(self).wf(),
            !threshold_ok(dedup(signers@).len() as u32, approval_threshold) ==> {
                &&& r == Err::<u64, TreasuryError>(TreasuryError::InvalidThreshold)
                &&& final(self).treasuries@ == old(self).treasuries@
            },
            threshold_ok(dedup(signers@).len() as u32, approval_threshold) ==> {
                let t = final(self).treasuries@.last();
                &&& r == Ok::<u64, TreasuryError>((old(self).treasuries@.len() + 1) as u64)
                &&& final(self).treasuries@.len() == old(self).treasuries@.len() + 1
                &&& forall|i: int| 0 <= i < old(self).treasuries@.len()
                    ==> final(self).treasuries@[i] == old(self).treasuries@[i]
                &&& t.id == old(self).treasuries@.len() + 1
                &&& t.guild_id == guild_id
                &&& t.owner == signers@[0]
                &&& t.signers@ == dedup(signers@)
                &&& t.approval_threshold == approval_threshold
                &&& t.high_value_threshold == DEFAULT_HIGH_VALUE_THRESHOLD
                &&& t.balance_xlm == 0
                &&& t.token_balances@.len() == 0
                &&& t.total_deposits == 0
                &&& t.total_withdrawals == 0
                &&& !t.paused
            },
            final(self).transactions@ == old(self).transactions@,
            final(self).budgets@ == old(self).budgets@,
            final(self).allowances@ == old(self).allowances@,
    {
        proof {
            lemma_dedup(signers@);
        }
        let mut unique_signers: Vec<u64> = Vec::new();
        let mut i: usize = 0;
        while i < signers.len()
            invariant
                i <= signers.len(),
                unique_signers@ == dedup(signers@.take(i as int)),
            decreases signers.len() - i,
        {
            proof {
                assert(signers@.take(i as int + 1).drop_last() =~= signers@.take(i as int));
                assert(signers@.take(i as int + 1).last() == signers@[i as int]);
            }
            if !contains_addr(&unique_signers, signers[i]) {
                unique_signers.push(signers[i]);
            }
            i = i + 1;
        }
        proof {
            assert(signers@.take(signers@.len() as int) =~= signers@);
        }
        let n = unique_signers.len();
        proof {
            assert(dedup(signers@).len() <= signers@.len());
        }
        if !validate_threshold(n as u32, approval_threshold) {
            return Err(TreasuryError::InvalidThreshold);
        }
        let owner = unique_signers[0];
        let id = (self.treasuries.len() as u64) + 1;
        let treasury = Treasury {
            id,
            guild_id,
            owner,
            signers: unique_signers,
            approval_threshold,
            high_value_threshold: DEFAULT_HIGH_VALUE_THRESHOLD,
            balance_xlm: 0,
            token_balances: Vec::new(),
            total_deposits: 0,
            total_withdrawals: 0,
            paused: false,
        };
        self.treasuries.push(treasury);
        Ok(id)
    }

    /// Moves `amount` of `token` into the treasury's accounting and records
    /// an already-settled deposit transaction for audit symmetry. The host
    /// must have authenticated `depositor` and performed the actual token
    /// transfer. Fails with `InvalidAmount` on a non-positive amount,
    /// `NotFound` for an unknown treasury, and `Paused` while paused.
    pub fn deposit(
        &mut self,
        treasury_id: u64,
        depositor: u64,
        amount: i128,
        token: Option<u64>,
        now: u64,
    ) -> (r: Result<bool, TreasuryError>)
        requires
            old(self).wf(),
            old(self).transactions@.len() < u64::MAX,
            old(self).has_treasury(treasury_id)
                ==> old(self).treasury_at(treasury_id).total_deposits + amount <= i128::MAX,
        ensures
            final(self).wf(),
            amount <= 0 ==> r == Err::<bool, TreasuryError>(TreasuryError::InvalidAmount)
                && *final(self) == *old(self),
            amount > 0 && !old(self).has_treasury(treasury_id)
                ==> r == Err::<bool, TreasuryError>(TreasuryError::NotFound)
                    && *final(self) == *old(self),
            amount > 0 && old(self).has_treasury(treasury_id)
                && old(self).treasury_at(treasury_id).paused
                ==> r == Err::<bool, TreasuryError>(TreasuryError::Paused)
                    && *final(self) == *old(self),
            amount > 0 && old(self).has_treasury(treasury_id)
                && !old(self).treasury_at(treasury_id).paused ==> {
                &&& r == Ok::<bool, TreasuryError>(true)
                &&& final(self).treasuries@.len() == old(self).treasuries@.len()
                &&& forall|i: int| 0 <= i < old(self).treasuries@.len() && i != treasury_id - 1
                    ==> final(self).treasuries@[i] == old(self).treasuries@[i]
                &&& spec_funds_moved(
                    old(self).treasury_at(treasury_id),
                    final(self).treasury_at(treasury_id),
                    token,
                    amount as int,
                )
                &&& final(self).transactions@.len() == old(self).transactions@.len() + 1
                &&& forall|i: int| 0 <= i < old(self).transactions@.len()
                    ==> final(self).transactions@[i] == old(self).transactions@[i]
                &&& spec_deposit_tx(
                    final(self).transactions@.last(),
                    old(self).transactions@.len() as int + 1,
                    treasury_id,
                    depositor,
                    amount,
                    token,
                    now,
                )
                &&& final(self).budgets@ == old(self).budgets@
                &&& final(self).allowances@ == old(self).allowances@
            },
    {
        if amount <= 0 {
            return Err(TreasuryError::InvalidAmount);
        }
        if !(treasury_id >= 1 && treasury_id <= self.treasuries.len() as u64) {
            return Err(TreasuryError::NotFound);
        }
        let idx = (treasury_id - 1) as usize;
        if self.treasuries[idx].paused {
            return Err(TreasuryError::Paused);
        }
        match token {
            None => {
                let b = self.treasuries[idx].balance_xlm;
                proof {
                    lemma_tb_lookup_le_sum(self.treasuries@[idx as int].token_balances@, 0);
                }
                self.treasuries[idx].balance_xlm = b + amount;
            },
            Some(tok) => {
                let pos = find_token(&self.treasuries[idx].token_balances, tok);
                if pos < self.treasuries[idx].token_balances.len() {
                    let cur = self.treasuries[idx].token_balances[pos].amount;
                    proof {
                        lemma_tb_lookup_at(self.treasuries@[idx as int].token_balances@, pos as int);
                        lemma_tb_lookup_le_sum(self.treasuries@[idx as int].token_balances@, tok);
                        lemma_tb_update(
                            self.treasuries@[idx as int].token_balances@,
                            pos as int,
                            (cur + amount) as i128,
                        );
                    }
                    self.treasuries[idx].token_balances[pos].amount = cur + amount;
                } else {
                    proof {
                        assert(!tb_has(self.treasuries@[idx as int].token_balances@, tok));
                        lemma_tb_push(
                            self.treasuries@[idx as int].token_balances@,
                            (TokenBalance { token: tok, amount }),
                        );
                        lemma_tb_lookup_absent(self.treasuries@[idx as int].token_balances@, tok);
                    }
                    self.treasuries[idx].token_balances.push(TokenBalance { token: tok, amount });
                }
            },
        }
        let td = self.treasuries[idx].total_deposits;
        self.treasuries[idx].total_deposits = td + amount;
        let tx_id = (self.transactions.len() as u64) + 1;
        let tx = Transaction {
            id: tx_id,
            treasury_id,
            tx_type: TransactionType::Deposit,
            amount,
            token,
            recipient: None,
            proposer: depositor,
            approvals: Vec::new(),
            status: TransactionStatus::Executed,
            created_at: now,
            expires_at: now,
            reason: "deposit".to_owned(),
        };
        self.transactions.push(tx);
        Ok(true)
    }

    /// Proposes a withdrawal of `amount` in `token` to `recipient`. The host
    /// must have authenticated `proposer`. The new transaction carries the
    /// proposer's implicit approval; a low-value proposal (below the
    /// high-value threshold) is thereby already approved. Fails with
    /// `InvalidAmount` on a non-positive amount, `NotFound` for an unknown
    /// treasury, `Paused` while paused, and `NotSigner` when the proposer is
    /// not a signer.
    pub fn propose_withdrawal(
        &mut self,
        treasury_id: u64,
        proposer: u64,
        recipient: u64,
        amount: i128,
        token: Option<u64>,
        reason: String,
        now: u64,
    ) -> (r: Result<u64, TreasuryError>)
        requires
            old(self).wf(),
            old(self).transactions@.len() < u64::MAX,
            now + TX_EXPIRY_SECONDS <= u64::MAX,
        ensures
            final(self).wf(),
            amount <= 0 ==> r == Err::<u64, TreasuryError>(TreasuryError::InvalidAmount)
                && *final(self) == *old(self),
            amount > 0 && !old(self).has_treasury(treasury_id)
                ==> r == Err::<u64, TreasuryError>(TreasuryError::NotFound)
                    && *final(self) == *old(self),
            amount > 0 && old(self).has_treasury(treasury_id)
                && old(self).treasury_at(treasury_id).paused
                ==> r == Err::<u64, TreasuryError>(TreasuryError::Paused)
                    && *final(self) == *old(self),
            amount > 0 && old(self).has_treasury(treasury_id)
                && !old(self).treasury_at(treasury_id).paused
                && !old(self).treasury_at(treasury_id).spec_is_signer(proposer)
                ==> r == Err::<u64, TreasuryError>(TreasuryError::NotSigner)
                    && *final(self) == *old(self),
            amount > 0 && old(self).has_treasury(treasury_id)
                && !old(self).treasury_at(treasury_id).paused
                && old(self).treasury_at(treasury_id).spec_is_signer(proposer) ==> {
                &&& r == Ok::<u64, TreasuryError>((old(self).transactions@.len() + 1) as u64)
                &&& final(self).treasuries@ == old(self).treasuries@
                &&& final(self).budgets@ == old(self).budgets@
                &&& final(self).allowances@ == old(self).allowances@
                &&& final(self).transactions@.len() == old(self).transactions@.len() + 1
                &&& forall|i: int| 0 <= i < old(self).transactions@.len()
                    ==> final(self).transactions@[i] == old(self).transactions@[i]
                &&& spec_withdrawal_tx(
                    final(self).transactions@.last(),
                    old(self).treasury_at(treasury_id),
                    old(self).transactions@.len() as int + 1,
                    treasury_id,
                    proposer,
                    recipient,
                    amount,
                    token,
                    reason@,
                    now,
                )
            },
    {
        if amount <= 0 {
            return Err(TreasuryError::InvalidAmount);
        }
        if !(treasury_id >= 1 && treasury_id <= self.treasuries.len() as u64) {
            return Err(TreasuryError::NotFound);
        }
        let idx = (treasury_id - 1) as usize;
        if self.treasuries[idx].paused {
            return Err(TreasuryError::Paused);
        }
        if !self.treasuries[idx].is_signer(proposer) {
            return Err(TreasuryError::NotSigner);
        }
        let tx_id = (self.transactions.len() as u64) + 1;
        let mut approvals: Vec<u64> = Vec::new();
        approvals.push(proposer);
        proof {
            assert(approvals@ =~= seq![proposer]);
        }
        let mut tx = Transaction {
            id: tx_id,
            treasury_id,
            tx_type: TransactionType::Withdrawal,
            amount,
            token,
            recipient: Some(recipient),
            proposer,
            approvals,
            status: TransactionStatus::Pending,
            created_at: now,
            expires_at: now + TX_EXPIRY_SECONDS,
            reason,
        };
        let required = required_approvals_for_tx(&self.treasuries[idx], &tx);
        if required <= 1 {
            tx.status = TransactionStatus::Approved;
        }
        self.transactions.push(tx);
        Ok(tx_id)
    }

    /// Adds `approver`'s approval to a live transaction, transitioning it to
    /// `Approved` once the required-approvals rule is met. The host must have
    /// authenticated `approver`. Fails with `NotFound` for an unknown
    /// transaction; with `Expired` when the transaction is past its deadline
    /// (marking it `Expired` if it was still live) or already expired; with
    /// `NotApprovable` when it was already rejected or executed; with
    /// `NotSigner` when `approver` is not a signer of its treasury; and with
    /// `DuplicateApproval` when `approver` already approved it.
    pub fn approve_transaction(&mut self, tx_id: u64, approver: u64, now: u64) -> (r: Result<
        bool,
        TreasuryError,
    >)
        requires
            old(self).wf(),
        ensures
            final(self).wf(),
            !old(self).has_tx(tx_id) ==> r == Err::<bool, TreasuryError>(TreasuryError::NotFound)
                && *final(self) == *old(self),
            old(self).has_tx(tx_id) ==> {
                let tx = old(self).tx_at(tx_id);
                let t = old(self).treasury_at(tx.treasury_id);
                &&& final(self).treasuries@ == old(self).treasuries@
                &&& final(self).budgets@ == old(self).budgets@
                &&& final(self).allowances@ == old(self).allowances@
                &&& final(self).transactions@.len() == old(self).transactions@.len()
                &&& forall|i: int| 0 <= i < old(self).transactions@.len() && i != tx_id - 1
                    ==> final(self).transactions@[i] == old(self).transactions@[i]
                &&& if spec_should_expire(tx, now) {
                    &&& r == Err::<bool, TreasuryError>(TreasuryError::Expired)
                    &&& final(self).tx_at(tx_id) == (Transaction {
                        status: TransactionStatus::Expired,
                        ..tx
                    })
                } else if tx.status == TransactionStatus::Expired {
                    &&& r == Err::<bool, TreasuryError>(TreasuryError::Expired)
                    &&& final(self).transactions@ == old(self).transactions@
                } else if tx.is_terminal() {
                    &&& r == Err::<bool, TreasuryError>(TreasuryError::NotApprovable)
                    &&& final(self).transactions@ == old(self).transactions@
                } else if !t.spec_is_signer(approver) {
                    &&& r == Err::<bool, TreasuryError>(TreasuryError::NotSigner)
                    &&& final(self).transactions@ == old(self).transactions@
                } else if tx.spec_has_approved(approver) {
                    &&& r == Err::<bool, TreasuryError>(TreasuryError::DuplicateApproval)
                    &&& final(self).transactions@ == old(self).transactions@
                } else {
                    let tx2 = final(self).tx_at(tx_id);
                    &&& r == Ok::<bool, TreasuryError>(true)
                    &&& tx2.approvals@ == tx.approvals@.push(approver)
                    &&& tx2.status == (if tx.approvals@.len() + 1
                        >= spec_required_approvals(t, tx) {
                        TransactionStatus::Approved
                    } else {
                        tx.status
                    })
                    &&& tx2.id == tx.id
                    &&& tx2.treasury_id == tx.treasury_id
                    &&& tx2.tx_type == tx.tx_type
                    &&& tx2.amount == tx.amount
                    &&& tx2.token == tx.token
                    &&& tx2.recipient == tx.recipient
                    &&& tx2.proposer == tx.proposer
                    &&& tx2.created_at == tx.created_at
                    &&& tx2.expires_at == tx.expires_at
                    &&& tx2.reason == tx.reason
                }
            },
    {
        if !(tx_id >= 1 && tx_id <= self.transactions.len() as u64) {
            return Err(TreasuryError::NotFound);
        }
        let tidx = (tx_id - 1) as usize;
        let now_expired = {
            let tx = &mut self.transactions[tidx];
            let live = matches!(
                tx.status,
                TransactionStatus::Pending | TransactionStatus::Approved
            );
            let past = now >= tx.expires_at;
            if live && past {
                tx.status = TransactionStatus::Expired;
            }
            live && past
        };
        if now_expired {
            return Err(TreasuryError::Expired);
        }
        proof {
            assert(self.transactions@ =~= old(self).transactions@);
        }
        match self.transactions[tidx].status {
            TransactionStatus::Expired => {
                return Err(TreasuryError::Expired);
            },
            TransactionStatus::Rejected | TransactionStatus::Executed => {
                return Err(TreasuryError::NotApprovable);
            },
            _ => {},
        }
        let t_id = self.transactions[tidx].treasury_id;
        proof {
            assert(old(self).has_treasury(old(self).transactions@[tx_id - 1].treasury_id));
        }
        if !(t_id >= 1 && t_id <= self.treasuries.len() as u64) {
            // unreachable: every stored transaction refers to an existing treasury
            return Err(TreasuryError::NotFound);
        }
        let idx = (t_id - 1) as usize;
        if !self.treasuries[idx].is_signer(approver) {
            return Err(TreasuryError::NotSigner);
        }
        if self.transactions[tidx].has_approved(approver) {
            return Err(TreasuryError::DuplicateApproval);
        }
        self.transactions[tidx].approvals.push(approver);
        let required = required_approvals_for_tx(&self.treasuries[idx], &self.transactions[tidx]);
        if self.transactions[tidx].approvals.len() as u64 >= required as u64 {
            self.transactions[tidx].status = TransactionStatus::Approved;
        }
        Ok(true)
    }

    /// Settles an approved transaction: for value-moving types it runs budget
    /// enforcement for the type's category and allowance enforcement against
    /// the executor, debits the treasury, advances the withdrawal counter and
    /// marks the transaction `Executed`. The host must have authenticated
    /// `executor` and performs the actual token transfer on success. While the
    /// treasury is paused, only transactions that are already `Approved` may
    /// settle. Fails with `NotFound` for an unknown transaction; `Expired` on
    /// or after the deadline (marking a live transaction `Expired`);
    /// `NotExecutable` when rejected, already executed, still pending, or of
    /// deposit type; `Paused`; `NotSigner`; `BudgetExceeded`;
    /// `AllowanceExceeded`; and `InsufficientBalance`.
    pub fn execute_transaction(&mut self, tx_id: u64, executor: u64, now: u64) -> (r: Result<
        bool,
        TreasuryError,
    >)
        requires
            old(self).wf(),
        ensures
            final(self).wf(),
            !old(self).has_tx(tx_id) ==> r == Err::<bool, TreasuryError>(TreasuryError::NotFound)
                && *final(self) == *old(self),
            old(self).has_tx(tx_id) ==> {
                let tx = old(self).tx_at(tx_id);
                let t = old(self).treasury_at(tx.treasury_id);
                let cat = spec_category_of(tx.tx_type);
                &&& final(self).transactions@.len() == old(self).transactions@.len()
                &&& forall|i: int| 0 <= i < old(self).transactions@.len() && i != tx_id - 1
                    ==> final(self).transactions@[i] == old(self).transactions@[i]
                &&& if spec_should_expire(tx, now) {
                    &&& r == Err::<bool, TreasuryError>(TreasuryError::Expired)
                    &&& final(self).tx_at(tx_id) == (Transaction {
                        status: TransactionStatus::Expired,
                        ..tx
                    })
                    &&& final(self).treasuries@ == old(self).treasuries@
                    &&& final(self).budgets@ == old(self).budgets@
                    &&& final(self).allowances@ == old(self).allowances@
                } else if tx.status == TransactionStatus::Expired {
                    r == Err::<bool, TreasuryError>(TreasuryError::Expired)
                        && *final(self) == *old(self)
                } else if tx.is_terminal() {
                    r == Err::<bool, TreasuryError>(TreasuryError::NotExecutable)
                        && *final(self) == *old(self)
                } else if t.paused && tx.status != TransactionStatus::Approved {
                    r == Err::<bool, TreasuryError>(TreasuryError::Paused)
                        && *final(self) == *old(self)
                } else if !t.spec_is_signer(executor) {
                    r == Err::<bool, TreasuryError>(TreasuryError::NotSigner)
                        && *final(self) == *old(self)
                } else if tx.status != TransactionStatus::Approved {
                    r == Err::<bool, TreasuryError>(TreasuryError::NotExecutable)
                        && *final(self) == *old(self)
                } else if tx.tx_type == TransactionType::Deposit {
                    r == Err::<bool, TreasuryError>(TreasuryError::NotExecutable)
                        && *final(self) == *old(self)
                } else if tx.tx_type == TransactionType::AllowanceGrant {
                    &&& r == Ok::<bool, TreasuryError>(true)
                    &&& final(self).tx_at(tx_id) == (Transaction {
                        status: TransactionStatus::Executed,
                        ..tx
                    })
                    &&& final(self).treasuries@ == old(self).treasuries@
                    &&& final(self).budgets@ == old(self).budgets@
                    &&& final(self).allowances@ == old(self).allowances@
                } else if !spec_budget_charge_ok(
                    old(self).budgets@,
                    tx.treasury_id,
                    cat,
                    tx.amount,
                    now,
                ) {
                    r == Err::<bool, TreasuryError>(TreasuryError::BudgetExceeded)
                        && *final(self) == *old(self)
                } else if !spec_allowance_charge_ok(
                    old(self).allowances@,
                    tx.treasury_id,
                    executor,
                    tx.token,
                    tx.amount,
                    now,
                ) {
                    r == Err::<bool, TreasuryError>(TreasuryError::AllowanceExceeded)
                        && *final(self) == *old(self)
                } else if t.spec_balance_of(tx.token) < tx.amount {
                    r == Err::<bool, TreasuryError>(TreasuryError::InsufficientBalance)
                        && *final(self) == *old(self)
                } else {
                    &&& r == Ok::<bool, TreasuryError>(true)
                    &&& final(self).tx_at(tx_id) == (Transaction {
                        status: TransactionStatus::Executed,
                        ..tx
                    })
                    &&& final(self).treasuries@.len() == old(self).treasuries@.len()
                    &&& forall|i: int| 0 <= i < old(self).treasuries@.len()
                        && i != tx.treasury_id - 1
                        ==> final(self).treasuries@[i] == old(self).treasuries@[i]
                    &&& spec_funds_moved(
                        t,
                        final(self).treasury_at(tx.treasury_id),
                        tx.token,
                        -(tx.amount as int),
                    )
                    &&& spec_budgets_charged(
                        old(self).budgets@,
                        final(self).budgets@,
                        tx.treasury_id,
                        cat,
                        tx.amount,
                        now,
                    )
                    &&& spec_allowances_charged(
                        old(self).allowances@,
                        final(self).allowances@,
                        tx.treasury_id,
                        executor,
                        tx.token,
                        tx.amount,
                        now,
                    )
                }
            },
    {
        if !(tx_id >= 1 && tx_id <= self.transactions.len() as u64) {
            return Err(TreasuryError::NotFound);
        }
        let tidx = (tx_id - 1) as usize;
        let live = matches!(
            self.transactions[tidx].status,
            TransactionStatus::Pending | TransactionStatus::Approved
        );
        if live && now >= self.transactions[tidx].expires_at {
            self.transactions[tidx].status = TransactionStatus::Expired;
            return Err(TreasuryError::Expired);
        }
        match self.transactions[tidx].status {
            TransactionStatus::Expired => {
                return Err(TreasuryError::Expired);
            },
            TransactionStatus::Rejected | TransactionStatus::Executed => {
                return Err(TreasuryError::NotExecutable);
            },
            _ => {},
        }
        let t_id = self.transactions[tidx].treasury_id;
        proof {
            assert(old(self).has_treasury(old(self).transactions@[tx_id - 1].treasury_id));
        }
        if !(t_id >= 1 && t_id <= self.treasuries.len() as u64) {
            // unreachable: every stored transaction refers to an existing treasury
            return Err(TreasuryError::NotFound);
        }
        let idx = (t_id - 1) as usize;
        let approved = matches!(self.transactions[tidx].status, TransactionStatus::Approved);
        if self.treasuries[idx].paused && !approved {
            return Err(TreasuryError::Paused);
        }
        if !self.treasuries[idx].is_signer(executor) {
            return Err(TreasuryError::NotSigner);
        }
        if !approved {
            return Err(TreasuryError::NotExecutable);
        }
        match self.transactions[tidx].tx_type {
            TransactionType::Deposit => {
                return Err(TreasuryError::NotExecutable);
            },
            TransactionType::AllowanceGrant => {
                self.transactions[tidx].status = TransactionStatus::Executed;
                return Ok(true);
            },
            _ => {},
        }
        let amount = self.transactions[tidx].amount;
        let token = self.transactions[tidx].token;
        let category = category_of(self.transactions[tidx].tx_type);

        // Budget enforcement (lazy rollover, then cap check).
        let n_b = self.budgets.len();
        let bpos = find_budget(&self.budgets, t_id, &category);
        proof {
            lemma_budget_idx(old(self).budgets@, t_id, category@);
            if bpos < n_b {
                lemma_budget_idx_is(old(self).budgets@, t_id, category@, bpos as int);
            }
        }
        let mut b_spent0: i128 = 0;
        let mut b_rolled: bool = false;
        if bpos < n_b {
            let ps = self.budgets[bpos].period_seconds;
            let start = self.budgets[bpos].period_start;
            b_rolled = ps > 0 && now >= start.saturating_add(ps);
            b_spent0 = if b_rolled {
                0
            } else {
                self.budgets[bpos].spent_amount
            };
            let alloc = self.budgets[bpos].allocated_amount;
            if alloc > 0 {
                match b_spent0.checked_add(amount) {
                    None => {
                        return Err(TreasuryError::BudgetExceeded);
                    },
                    Some(sum) => {
                        if sum > alloc {
                            return Err(TreasuryError::BudgetExceeded);
                        }
                    },
                }
            }
        }

        // Allowance enforcement against the executor (opt-in).
        let n_a = self.allowances.len();
        let apos = find_allowance(&self.allowances, t_id, executor, token);
        proof {
            lemma_allowance_idx(old(self).allowances@, t_id, executor, token);
            if apos < n_a {
                lemma_allowance_idx_is(old(self).allowances@, t_id, executor, token, apos as int);
            }
        }
        let mut a_rem0: i128 = 0;
        let mut a_rolled: bool = false;
        if apos < n_a {
            let ps = self.allowances[apos].period_seconds;
            let start = self.allowances[apos].period_start;
            a_rolled = ps > 0 && now >= start.saturating_add(ps);
            a_rem0 = if a_rolled {
                self.allowances[apos].amount_per_period
            } else {
                self.allowances[apos].remaining_amount
            };
            if a_rem0 < amount {
                return Err(TreasuryError::AllowanceExceeded);
            }
        }

        // Balance check.
        let mut tok_pos: usize = 0;
        match token {
            None => {
                if self.treasuries[idx].balance_xlm < amount {
                    return Err(TreasuryError::InsufficientBalance);
                }
            },
            Some(tok) => {
                tok_pos = find_token(&self.treasuries[idx].token_balances, tok);
                proof {
                    if tok_pos < self.treasuries@[idx as int].token_balances@.len() {
                        lemma_tb_lookup_at(
                            self.treasuries@[idx as int].token_balances@,
                            tok_pos as int,
                        );
                    } else {
                        lemma_tb_lookup_absent(self.treasuries@[idx as int].token_balances@, tok);
                    }
                }
                if tok_pos == self.treasuries[idx].token_balances.len() {
                    return Err(TreasuryError::InsufficientBalance);
                }
                if self.treasuries[idx].token_balances[tok_pos].amount < amount {
                    return Err(TreasuryError::InsufficientBalance);
                }
            },
        }

        // All checks passed: commit atomically. Conservation bounds every
        // addition below: the charge is at most the balance, so counters stay
        // within the total ever deposited.
        proof {
            let ot = old(self).treasuries@[idx as int];
            lemma_tb_lookup_le_sum(ot.token_balances@, 0);
            if let Option::Some(tok) = token {
                lemma_tb_lookup_le_sum(ot.token_balances@, tok);
            }
            assert(amount <= ot.total_deposits - ot.total_withdrawals);
            if bpos < n_b {
                assert(old(self).budgets@[bpos as int].spent_amount <= ot.total_withdrawals);
            }
        }
        if bpos < n_b {
            if b_rolled {
                self.budgets[bpos].period_start = now;
            }
            self.budgets[bpos].spent_amount = b_spent0 + amount;
            proof {
                assert(self.budgets@ =~= old(self).budgets@.update(
                    bpos as int,
                    (Budget {
                        spent_amount: (spec_rolled_budget(
                            old(self).budgets@[bpos as int],
                            now,
                        ).spent_amount + amount) as i128,
                        ..spec_rolled_budget(old(self).budgets@[bpos as int], now)
                    }),
                ));
            }
        } else {
            self.budgets.push(Budget {
                treasury_id: t_id,
                category,
                allocated_amount: 0,
                spent_amount: amount,
                period_seconds: 0,
                period_start: now,
            });
        }
        if apos < n_a {
            if a_rolled {
                self.allowances[apos].period_start = now;
            }
            self.allowances[apos].remaining_amount = a_rem0 - amount;
            proof {
                assert(self.allowances@ =~= old(self).allowances@.update(
                    apos as int,
                    (Allowance {
                        remaining_amount: (spec_rolled_allowance(
                            old(self).allowances@[apos as int],
                            now,
                        ).remaining_amount - amount) as i128,
                        ..spec_rolled_allowance(old(self).allowances@[apos as int], now)
                    }),
                ));
            }
        } else {
            proof {
                assert(self.allowances@ =~= old(self).allowances@);
            }
        }
        match token {
            None => {
                let b = self.treasuries[idx].balance_xlm;
                self.treasuries[idx].balance_xlm = b - amount;
            },
            Some(tok) => {
                let cur = self.treasuries[idx].token_balances[tok_pos].amount;
                proof {
                    lemma_tb_update(
                        old(self).treasuries@[idx as int].token_balances@,
                        tok_pos as int,
                        (cur - amount) as i128,
                    );
                }
                self.treasuries[idx].token_balances[tok_pos].amount = cur - amount;
            },
        }
        let tw = self.treasuries[idx].total_withdrawals;
        self.treasuries[idx].total_withdrawals = tw + amount;
        self.transactions[tidx].status = TransactionStatus::Executed;
        Ok(true)
    }

    /// Entry point for the milestone module: pays `amount` of `token` to
    /// `recipient` without the proposal/approval protocol, but still under
    /// budget enforcement (category `milestone`) and allowance enforcement
    /// against `executor`, the identity of the calling module. Records an
    /// already-settled transaction. The host performs the actual token
    /// transfer on success. Fails with `InvalidAmount` on a non-positive
    /// amount, `NotFound` for an unknown treasury, `Paused` while paused,
    /// `BudgetExceeded`, `AllowanceExceeded`, and `InsufficientBalance`.
    #[verifier::rlimit(60)]
    pub fn execute_milestone_payment(
        &mut self,
        treasury_id: u64,
        token: Option<u64>,
        recipient: u64,
        amount: i128,
        executor: u64,
        now: u64,
    ) -> (r: Result<bool, TreasuryError>)
        requires
            old(self).wf(),
            old(self).transactions@.len() < u64::MAX,
        ensures
            final(self).wf(),
            amount <= 0 ==> r == Err::<bool, TreasuryError>(TreasuryError::InvalidAmount)
                && *final(self) == *old(self),
            amount > 0 && !old(self).has_treasury(treasury_id)
                ==> r == Err::<bool, TreasuryError>(TreasuryError::NotFound)
                    && *final(self) == *old(self),
            amount > 0 && old(self).has_treasury(treasury_id) ==> {
                let t = old(self).treasury_at(treasury_id);
                let cat = "milestone"@;
                if t.paused {
                    r == Err::<bool, TreasuryError>(TreasuryError::Paused)
                        && *final(self) == *old(self)
                } else if !spec_budget_charge_ok(old(self).budgets@, treasury_id, cat, amount, now) {
                    r == Err::<bool, TreasuryError>(TreasuryError::BudgetExceeded)
                        && *final(self) == *old(self)
                } else if !spec_allowance_charge_ok(
                    old(self).allowances@,
                    treasury_id,
                    executor,
                    token,
                    amount,
                    now,
                ) {
                    r == Err::<bool, TreasuryError>(TreasuryError::AllowanceExceeded)
                        && *final(self) == *old(self)
                } else if t.spec_balance_of(token) < amount {
                    r == Err::<bool, TreasuryError>(TreasuryError::InsufficientBalance)
                        && *final(self) == *old(self)
                } else {
                    &&& r == Ok::<bool, TreasuryError>(true)
                    &&& final(self).treasuries@.len() == old(self).treasuries@.len()
                    &&& forall|i: int| 0 <= i < old(self).treasuries@.len() && i != treasury_id - 1
                        ==> final(self).treasuries@[i] == old(self).treasuries@[i]
                    &&& spec_funds_moved(
                        t,
                        final(self).treasury_at(treasury_id),
                        token,
                        -(amount as int),
                    )
                    &&& spec_budgets_charged(
                        old(self).budgets@,
                        final(self).budgets@,
                        treasury_id,
                        cat,
                        amount,
                        now,
                    )
                    &&& spec_allowances_charged(
                        old(self).allowances@,
                        final(self).allowances@,
                        treasury_id,
                        executor,
                        token,
                        amount,
                        now,
                    )
                    &&& final(self).transactions@.len() == old(self).transactions@.len() + 1
                    &&& forall|i: int| 0 <= i < old(self).transactions@.len()
                        ==> final(self).transactions@[i] == old(self).transactions@[i]
                    &&& spec_milestone_tx(
                        final(self).transactions@.last(),
                        old(self).transactions@.len() as int + 1,
                        treasury_id,
                        executor,
                        recipient,
                        amount,
                        token,
                        now,
                    )
                }
            },
    {
        if amount <= 0 {
            return Err(TreasuryError::InvalidAmount);
        }
        if !(treasury_id >= 1 && treasury_id <= self.treasuries.len() as u64) {
            return Err(TreasuryError::NotFound);
        }
        let idx = (treasury_id - 1) as usize;
        if self.treasuries[idx].paused {
            return Err(TreasuryError::Paused);
        }
        let category = category_of(TransactionType::MilestonePayment);

        // Budget enforcement (lazy rollover, then cap check).
        let n_b = self.budgets.len();
        let bpos = find_budget(&self.budgets, treasury_id, &category);
        proof {
            lemma_budget_idx(old(self).budgets@, treasury_id, category@);
            if bpos < n_b {
                lemma_budget_idx_is(old(self).budgets@, treasury_id, category@, bpos as int);
            }
        }
        let mut b_spent0: i128 = 0;
        let mut b_rolled: bool = false;
        if bpos < n_b {
            let ps = self.budgets[bpos].period_seconds;
            let start = self.budgets[bpos].period_start;
            b_rolled = ps > 0 && now >= start.saturating_add(ps);
            b_spent0 = if b_rolled {
                0
            } else {
                self.budgets[bpos].spent_amount
            };
            let alloc = self.budgets[bpos].allocated_amount;
            if alloc > 0 {
                match b_spent0.checked_add(amount) {
                    None => {
                        return Err(TreasuryError::BudgetExceeded);
                    },
                    Some(sum) => {
                        if sum > alloc {
                            return Err(TreasuryError::BudgetExceeded);
                        }
                    },
                }
            }
        }

        // Allowance enforcement against the calling module's identity.
        let n_a = self.allowances.len();
        let apos = find_allowance(&self.allowances, treasury_id, executor, token);
        proof {
            lemma_allowance_idx(old(self).allowances@, treasury_id, executor, token);
            if apos < n_a {
                lemma_allowance_idx_is(
                    old(self).allowances@,
                    treasury_id,
                    executor,
                    token,
                    apos as int,
                );
            }
        }
        let mut a_rem0: i128 = 0;
        let mut a_rolled: bool = false;
        if apos < n_a {
            let ps = self.allowances[apos].period_seconds;
            let start = self.allowances[apos].period_start;
            a_rolled = ps > 0 && now >= start.saturating_add(ps);
            a_rem0 = if a_rolled {
                self.allowances[apos].amount_per_period
            } else {
                self.allowances[apos].remaining_amount
            };
            if a_rem0 < amount {
                return Err(TreasuryError::AllowanceExceeded);
            }
        }

        // Balance check.
        let mut tok_pos: usize = 0;
        match token {
            None => {
                if self.treasuries[idx].balance_xlm < amount {
                    return Err(TreasuryError::InsufficientBalance);
                }
            },
            Some(tok) => {
                tok_pos = find_token(&self.treasuries[idx].token_balances, tok);
                proof {
                    if tok_pos < self.treasuries@[idx as int].token_balances@.len() {
                        lemma_tb_lookup_at(
                            self.treasuries@[idx as int].token_balances@,
                            tok_pos as int,
                        );
                    } else {
                        lemma_tb_lookup_absent(self.treasuries@[idx as int].token_balances@, tok);
                    }
                }
                if tok_pos == self.treasuries[idx].token_balances.len() {
                    return Err(TreasuryError::InsufficientBalance);
                }
                if self.treasuries[idx].token_balances[tok_pos].amount < amount {
                    return Err(TreasuryError::InsufficientBalance);
                }
            },
        }

        // All checks passed: commit atomically.
        proof {
            let ot = old(self).treasuries@[idx as int];
            lemma_tb_lookup_le_sum(ot.token_balances@, 0);
            if let Option::Some(tok) = token {
                lemma_tb_lookup_le_sum(ot.token_balances@, tok);
            }
            assert(amount <= ot.total_deposits - ot.total_withdrawals);
            if bpos < n_b {
                assert(old(self).budgets@[bpos as int].spent_amount <= ot.total_withdrawals);
            }
        }
        if bpos < n_b {
            if b_rolled {
                self.budgets[bpos].period_start = now;
            }
            self.budgets[bpos].spent_amount = b_spent0 + amount;
            proof {
                assert(self.budgets@ =~= old(self).budgets@.update(
                    bpos as int,
                    (Budget {
                        spent_amount: (spec_rolled_budget(
                            old(self).budgets@[bpos as int],
                            now,
                        ).spent_amount + amount) as i128,
                        ..spec_rolled_budget(old(self).budgets@[bpos as int], now)
                    }),
                ));
            }
        } else {
            self.budgets.push(Budget {
                treasury_id,
                category,
                allocated_amount: 0,
                spent_amount: amount,
                period_seconds: 0,
                period_start: now,
            });
        }
        if apos < n_a {
            if a_rolled {
                self.allowances[apos].period_start = now;
            }
            self.allowances[apos].remaining_amount = a_rem0 - amount;
            proof {
                assert(self.allowances@ =~= old(self).allowances@.update(
                    apos as int,
                    (Allowance {
                        remaining_amount: (spec_rolled_allowance(
                            old(self).allowances@[apos as int],
                            now,
                        ).remaining_amount - amount) as i128,
                        ..spec_rolled_allowance(old(self).allowances@[apos as int], now)
                    }),
                ));
            }
        } else {
            proof {
                assert(self.allowances@ =~= old(self).allowances@);
            }
        }
        match token {
            None => {
                let b = self.treasuries[idx].balance_xlm;
                self.treasuries[idx].balance_xlm = b - amount;
            },
            Some(tok) => {
                let cur = self.treasuries[idx].token_balances[tok_pos].amount;
                proof {
                    lemma_tb_update(
                        old(self).treasuries@[idx as int].token_balances@,
                        tok_pos as int,
                        (cur - amount) as i128,
                    );
                }
                self.treasuries[idx].token_balances[tok_pos].amount = cur - amount;
            },
        }
        let tw = self.treasuries[idx].total_withdrawals;
        self.treasuries[idx].total_withdrawals = tw + amount;
        let tx_id = (self.transactions.len() as u64) + 1;
        self.transactions.push(Transaction {
            id: tx_id,
            treasury_id,
            tx_type: TransactionType::MilestonePayment,
            amount,
            token,
            recipient: Some(recipient),
            proposer: executor,
            approvals: Vec::new(),
            status: TransactionStatus::Executed,
            created_at: now,
            expires_at: now,
            reason: "milestone_payment".to_owned(),
        });
        Ok(true)
    }

    /// The recorded balance of `token` (`None` = native accounting balance).
    /// Fails with `NotFound` for an unknown treasury.
    pub fn get_balance(&self, treasury_id: u64, token: Option<u64>) -> (r: Result<
        i128,
        TreasuryError,
    >)
        requires
            self.wf(),
        ensures
            self.has_treasury(treasury_id)
                ==> (r matches Ok(v)
                    && v as int == self.treasury_at(treasury_id).spec_balance_of(token)),
            !self.has_treasury(treasury_id)
                ==> r == Err::<i128, TreasuryError>(TreasuryError::NotFound),
    {
        let t = match self.get_treasury(treasury_id) {
            Some(t) => t,
            None => {
                return Err(TreasuryError::NotFound);
            },
        };
        match token {
            None => Ok(t.balance_xlm),
            Some(tok) => {
                let mut i: usize = 0;
                while i < t.token_balances.len()
                    invariant
                        i <= t.token_balances.len(),
                        forall|j: int| 0 <= j < i ==> t.token_balances@[j].token != tok,
                        self.has_treasury(treasury_id),
                        *t == self.treasury_at(treasury_id),
                        token == Some(tok),
                    decreases t.token_balances.len() - i,
                {
                    if t.token_balances[i].token == tok {
                        proof {
                            lemma_tb_lookup_at(t.token_balances@, i as int);
                        }
                        return Ok(t.token_balances[i].amount);
                    }
                    i = i + 1;
                }
                proof {
                    lemma_tb_lookup_absent(t.token_balances@, tok);
                }
                Ok(0)
            },
        }
    }

    /// Sets or replaces the spending cap for a category: `amount` per
    /// `period_seconds`, where an amount of 0 means unlimited. The period is
    /// rolled over if it has already elapsed under the new length; spending
    /// already recorded in a running period is kept. The host must have
    /// authenticated `caller`. Fails with `NotFound` for an unknown treasury
    /// and `NotSigner` when `caller` is not one of its signers.
    pub fn set_budget(
        &mut self,
        treasury_id: u64,
        caller: u64,
        category: String,
        amount: i128,
        period_seconds: u64,
        now: u64,
    ) -> (r: Result<bool, TreasuryError>)
        requires
            old(self).wf(),
        ensures
            final(self).wf(),
            !old(self).has_treasury(treasury_id) ==> r == Err::<bool, TreasuryError>(
                TreasuryError::NotFound,
            ) && *final(self) == *old(self),
            old(self).has_treasury(treasury_id)
                && !old(self).treasury_at(treasury_id).spec_is_signer(caller)
                ==> r == Err::<bool, TreasuryError>(TreasuryError::NotSigner)
                    && *final(self) == *old(self),
            old(self).has_treasury(treasury_id)
                && old(self).treasury_at(treasury_id).spec_is_signer(caller) ==> {
                &&& r == Ok::<bool, TreasuryError>(true)
                &&& final(self).treasuries@ == old(self).treasuries@
                &&& final(self).transactions@ == old(self).transactions@
                &&& final(self).allowances@ == old(self).allowances@
                &&& if budget_has(old(self).budgets@, treasury_id, category@) {
                    final(self).budgets@ == old(self).budgets@.update(
                        budget_idx(old(self).budgets@, treasury_id, category@),
                        spec_budget_reconfigured(
                            budget_at(old(self).budgets@, treasury_id, category@),
                            amount,
                            period_seconds,
                            now,
                        ),
                    )
                } else {
                    let b = final(self).budgets@.last();
                    &&& final(self).budgets@.len() == old(self).budgets@.len() + 1
                    &&& forall|i: int| 0 <= i < old(self).budgets@.len()
                        ==> final(self).budgets@[i] == old(self).budgets@[i]
                    &&& b.treasury_id == treasury_id
                    &&& b.category@ == category@
                    &&& b.allocated_amount == amount
                    &&& b.spent_amount == 0
                    &&& b.period_seconds == period_seconds
                    &&& b.period_start == now
                }
            },
    {
        if !(treasury_id >= 1 && treasury_id <= self.treasuries.len() as u64) {
            return Err(TreasuryError::NotFound);
        }
        let idx = (treasury_id - 1) as usize;
        if !self.treasuries[idx].is_signer(caller) {
            return Err(TreasuryError::NotSigner);
        }
        let n = self.budgets.len();
        let bpos = find_budget(&self.budgets, treasury_id, &category);
        if bpos < n {
            proof {
                lemma_budget_idx(old(self).budgets@, treasury_id, category@);
                lemma_budget_idx_is(old(self).budgets@, treasury_id, category@, bpos as int);
            }
            let start = self.budgets[bpos].period_start;
            self.budgets[bpos].period_seconds = period_seconds;
            if now >= start.saturating_add(period_seconds) {
                self.budgets[bpos].period_start = now;
                self.budgets[bpos].spent_amount = 0;
            }
            self.budgets[bpos].allocated_amount = amount;
            proof {
                assert(self.budgets@ =~= old(self).budgets@.update(
                    bpos as int,
                    spec_budget_reconfigured(
                        old(self).budgets@[bpos as int],
                        amount,
                        period_seconds,
                        now,
                    ),
                ));
            }
        } else {
            proof {
                lemma_budget_idx(old(self).budgets@, treasury_id, category@);
            }
            self.budgets.push(Budget {
                treasury_id,
                category,
                allocated_amount: amount,
                spent_amount: 0,
                period_seconds,
                period_start: now,
            });
        }
        Ok(true)
    }

    /// Grants or wholesale-replaces the recurring allowance of `admin` for
    /// `token`: `amount` per `period_seconds`, with the remaining amount reset
    /// to the full grant and the period restarted at `now`. The host must have
    /// authenticated `owner`. Fails with `NotFound` for an unknown treasury,
    /// `Unauthorized` when `owner` is not the registered owner, and
    /// `NotSigner` when `admin` is not a signer.
    pub fn grant_allowance(
        &mut self,
        treasury_id: u64,
        owner: u64,
        admin: u64,
        amount: i128,
        token: Option<u64>,
        period_seconds: u64,
        now: u64,
    ) -> (r: Result<bool, TreasuryError>)
        requires
            old(self).wf(),
            amount >= 0,
        ensures
            final(self).wf(),
            !old(self).has_treasury(treasury_id) ==> r == Err::<bool, TreasuryError>(
                TreasuryError::NotFound,
            ) && *final(self) == *old(self),
            old(self).has_treasury(treasury_id)
                && old(self).treasury_at(treasury_id).owner != owner
                ==> r == Err::<bool, TreasuryError>(TreasuryError::Unauthorized)
                    && *final(self) == *old(self),
            old(self).has_treasury(treasury_id)
                && old(self).treasury_at(treasury_id).owner == owner
                && !old(self).treasury_at(treasury_id).spec_is_signer(admin)
                ==> r == Err::<bool, TreasuryError>(TreasuryError::NotSigner)
                    && *final(self) == *old(self),
            old(self).has_treasury(treasury_id)
                && old(self).treasury_at(treasury_id).owner == owner
                && old(self).treasury_at(treasury_id).spec_is_signer(admin) ==> {
                let row = (Allowance {
                    treasury_id,
                    admin,
                    token,
                    amount_per_period: amount,
                    remaining_amount: amount,
                    period_seconds,
                    period_start: now,
                });
                &&& r == Ok::<bool, TreasuryError>(true)
                &&& final(self).treasuries@ == old(self).treasuries@
                &&& final(self).transactions@ == old(self).transactions@
                &&& final(self).budgets@ == old(self).budgets@
                &&& if allowance_has(old(self).allowances@, treasury_id, admin, token) {
                    final(self).allowances@ == old(self).allowances@.update(
                        allowance_idx(old(self).allowances@, treasury_id, admin, token),
                        row,
                    )
                } else {
                    final(self).allowances@ == old(self).allowances@.push(row)
                }
            },
    {
        if !(treasury_id >= 1 && treasury_id <= self.treasuries.len() as u64) {
            return Err(TreasuryError::NotFound);
        }
        let idx = (treasury_id - 1) as usize;
        if self.treasuries[idx].owner != owner {
            return Err(TreasuryError::Unauthorized);
        }
        if !self.treasuries[idx].is_signer(admin) {
            return Err(TreasuryError::NotSigner);
        }
        let row = Allowance {
            treasury_id,
            admin,
            token,
            amount_per_period: amount,
            remaining_amount: amount,
            period_seconds,
            period_start: now,
        };
        let n = self.allowances.len();
        let apos = find_allowance(&self.allowances, treasury_id, admin, token);
        if apos < n {
            proof {
                lemma_allowance_idx(old(self).allowances@, treasury_id, admin, token);
                lemma_allowance_idx_is(
                    old(self).allowances@,
                    treasury_id,
                    admin,
                    token,
                    apos as int,
                );
            }
            self.allowances[apos] = row;
        } else {
            proof {
                lemma_allowance_idx(old(self).allowances@, treasury_id, admin, token);
            }
            self.allowances.push(row);
        }
        Ok(true)
    }

    /// Copies of the most recent `limit` transactions of the treasury, in
    /// oldest-to-newest order (all of them when fewer than `limit` exist; the
    /// empty sequence for an unknown treasury).
    pub fn get_transaction_history(&self, treasury_id: u64, limit: u32) -> (r: Vec<Transaction>)
        ensures
            ({
                let h = spec_treasury_history(self.transactions@, treasury_id, limit);
                &&& r@.len() == h.len()
                &&& forall|i: int| 0 <= i < h.len() ==> tx_eq(#[trigger] r@[i], h[i])
            }),
    {
        let ghost p = |t: Transaction| t.treasury_id == treasury_id;
        let mut all: Vec<Transaction> = Vec::new();
        proof {
            reveal(Seq::filter);
            assert(self.transactions@.take(0).filter(p) =~= Seq::<Transaction>::empty());
        }
        let mut i: usize = 0;
        while i < self.transactions.len()
            invariant
                i <= self.transactions.len(),
                all@.len() == self.transactions@.take(i as int).filter(p).len(),
                forall|j: int| 0 <= j < all@.len() ==> tx_eq(
                    #[trigger] all@[j],
                    self.transactions@.take(i as int).filter(p)[j],
                ),
                p == (|t: Transaction| t.treasury_id == treasury_id),
            decreases self.transactions.len() - i,
        {
            proof {
                reveal(Seq::filter);
                let s = self.transactions@;
                assert(s.take(i as int + 1).drop_last() =~= s.take(i as int));
                assert(s.take(i as int + 1).last() == s[i as int]);
                assert(p(s[i as int]) == (s[i as int].treasury_id == treasury_id));
                assert(s.take(i as int + 1).filter(p) == if p(s[i as int]) {
                    s.take(i as int).filter(p).push(s[i as int])
                } else {
                    s.take(i as int).filter(p)
                });
            }
            if self.transactions[i].treasury_id == treasury_id {
                all.push(self.transactions[i].clone_tx());
            }
            i = i + 1;
        }
        proof {
            assert(self.transactions@.take(self.transactions@.len() as int)
                =~= self.transactions@);
            assert(p =~= (|t: Transaction| t.treasury_id == treasury_id));
        }
        let flen = all.len();
        if flen as u64 <= limit as u64 {
            return all;
        }
        let start = flen - (limit as usize);
        let tail = all.split_off(start);
        tail
    }

    /// Sets or clears the emergency pause flag. The host must have
    /// authenticated `signer`. Fails with `NotFound` for an unknown treasury
    /// and with `NotSigner` when `signer` is not one of its signers.
    pub fn emergency_pause(&mut self, treasury_id: u64, signer: u64, paused: bool) -> (r: Result<
        bool,
        TreasuryError,
    >)
        requires
            old(self).wf(),
        ensures
            final(self).wf(),
            !old(self).has_treasury(treasury_id) ==> r == Err::<bool, TreasuryError>(
                TreasuryError::NotFound,
            ) && *final(self) == *old(self),
            old(self).has_treasury(treasury_id)
                && !old(self).treasury_at(treasury_id).spec_is_signer(signer)
                ==> r == Err::<bool, TreasuryError>(TreasuryError::NotSigner)
                    && *final(self) == *old(self),
            old(self).has_treasury(treasury_id)
                && old(self).treasury_at(treasury_id).spec_is_signer(signer) ==> {
                &&& r == Ok::<bool, TreasuryError>(true)
                &&& final(self).treasuries@ == old(self).treasuries@.update(
                    treasury_id - 1,
                    (Treasury { paused, ..old(self).treasury_at(treasury_id) }),
                )
                &&& final(self).transactions@ == old(self).transactions@
                &&& final(self).budgets@ == old(self).budgets@
                &&& final(self).allowances@ == old(self).allowances@
            },
    {
        if !(treasury_id >= 1 && treasury_id <= self.treasuries.len() as u64) {
            return Err(TreasuryError::NotFound);
        }
        let idx = (treasury_id - 1) as usize;
        if !self.treasuries[idx].is_signer(signer) {
            return Err(TreasuryError::NotSigner);
        }
        self.treasuries[idx].paused = paused;
        Ok(true)
    }
}

} // verus!
