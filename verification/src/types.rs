//! Core data model of the treasury engine.
//!
//! Addresses are opaque account identifiers (`u64`); a token is identified the
//! same way, with `None` standing for the native asset. Keyed stores
//! (token balances, budgets, allowances) are association vectors with unique
//! keys; the spec functions here give them their mathematical reading.

use vstd::prelude::*;

verus! {

/// Reasons a treasury operation can fail. Every failed call leaves the
/// engine exactly as it was, except that observing an expired transaction
/// persists its `Expired` status before the call fails.
#[derive(Clone, Copy, Debug, PartialEq, Eq, Structural)]
pub enum TreasuryError {
    /// Treasury or transaction does not exist.
    NotFound,
    /// Caller is not a signer of the treasury.
    NotSigner,
    /// Caller lacks the required capability (e.g. is not the owner).
    Unauthorized,
    /// The M-of-N threshold is not between ceil(N/2) and N, or there are no signers.
    InvalidThreshold,
    /// A non-positive amount was supplied.
    InvalidAmount,
    /// The treasury is paused and the operation is a blocked write.
    Paused,
    /// The transaction is in a terminal status and cannot be approved.
    NotApprovable,
    /// The transaction is not in a status from which it can be executed.
    NotExecutable,
    /// The approver already approved this transaction.
    DuplicateApproval,
    /// The treasury balance is smaller than the requested amount.
    InsufficientBalance,
    /// The category budget for the current period would be exceeded.
    BudgetExceeded,
    /// The executor's allowance for the current period would be exceeded.
    AllowanceExceeded,
    /// The transaction's deadline has passed.
    Expired,
}

#[derive(Clone, Copy, Debug, PartialEq, Eq, Structural)]
pub enum TransactionType {
    Deposit,
    Withdrawal,
    BountyFunding,
    MilestonePayment,
    AllowanceGrant,
}

#[derive(Clone, Copy, Debug, PartialEq, Eq, Structural)]
pub enum TransactionStatus {
    Pending,
    Approved,
    Rejected,
    Executed,
    Expired,
}

/// One issued-token balance entry of a treasury.
#[derive(Clone, Copy, Debug, PartialEq, Eq, Structural)]
pub struct TokenBalance {
    pub token: u64,
    pub amount: i128,
}

/// A per-guild custodial account.
pub struct Treasury {
    /// Unique, monotonic identifier (index in the engine plus one).
    pub id: u64,
    pub guild_id: u64,
    /// The first signer; the only account that may grant allowances.
    pub owner: u64,
    /// Deduplicated, non-empty signer list.
    pub signers: Vec<u64>,
    /// How many approvals a high-value transaction needs.
    pub approval_threshold: u32,
    /// Amount at or above which the full threshold is required.
    pub high_value_threshold: i128,
    /// Native-asset accounting balance.
    pub balance_xlm: i128,
    /// Issued-token balances, keyed by token identifier, unique keys.
    pub token_balances: Vec<TokenBalance>,
    /// Sum of all deposits ever made; never decreases.
    pub total_deposits: i128,
    /// Sum of all executed withdrawals; never decreases.
    pub total_withdrawals: i128,
    pub paused: bool,
}

/// One proposed or settled fund movement.
pub struct Transaction {
    /// Unique, monotonic identifier (index in the engine plus one).
    pub id: u64,
    pub treasury_id: u64,
    pub tx_type: TransactionType,
    /// Always strictly positive.
    pub amount: i128,
    /// `None` means the native asset.
    pub token: Option<u64>,
    pub recipient: Option<u64>,
    pub proposer: u64,
    /// Approving signers in approval order; never contains duplicates.
    pub approvals: Vec<u64>,
    pub status: TransactionStatus,
    pub created_at: u64,
    pub expires_at: u64,
    pub reason: String,
}

/// A per-(treasury, category) recurring spending cap.
pub struct Budget {
    pub treasury_id: u64,
    pub category: String,
    /// Cap per period; 0 means unlimited.
    pub allocated_amount: i128,
    /// Spent in the current period; never negative.
    pub spent_amount: i128,
    pub period_seconds: u64,
    pub period_start: u64,
}

/// A per-(treasury, admin, token) recurring delegated spending cap.
pub struct Allowance {
    pub treasury_id: u64,
    pub admin: u64,
    /// `None` means the native asset.
    pub token: Option<u64>,
    pub amount_per_period: i128,
    /// Spendable remainder in the current period; never negative.
    pub remaining_amount: i128,
    pub period_seconds: u64,
    pub period_start: u64,
}

// ---------------------------------------------------------------------------
// Sequences of addresses
// ---------------------------------------------------------------------------

/// No address occurs twice.
pub open spec fn addrs_unique(s: Seq<u64>) -> bool {
    forall|i: int, j: int| 0 <= i < j < s.len() ==> s[i] != s[j]
}

/// The sequence with later repetitions of an address removed
/// (first occurrences kept, in order).
pub open spec fn dedup(s: Seq<u64>) -> Seq<u64>
    decreases s.len(),
{
    if s.len() == 0 {
        Seq::empty()
    } else {
        let d = dedup(s.drop_last());
        if d.contains(s.last()) {
            d
        } else {
            d.push(s.last())
        }
    }
}

pub proof fn lemma_dedup(s: Seq<u64>)
    ensures
        dedup(s).len() <= s.len(),
        addrs_unique(dedup(s)),
        forall|a: u64| dedup(s).contains(a) == s.contains(a),
        s.len() > 0 ==> dedup(s).len() > 0 && dedup(s)[0] == s[0],
    decreases s.len(),
{
    if s.len() > 0 {
        lemma_dedup(s.drop_last());
        let d = dedup(s.drop_last());
        assert forall|a: u64| dedup(s).contains(a) == s.contains(a) by {
            if s.contains(a) {
                let i = choose|i: int| 0 <= i < s.len() && s[i] == a;
                if i < s.len() - 1 {
                    assert(s.drop_last()[i] == a);
                    assert(s.drop_last().contains(a));
                    if !d.contains(s.last()) {
                        assert(d.contains(a));
                        let k = choose|k: int| 0 <= k < d.len() && d[k] == a;
                        assert(d.push(s.last())[k] == a);
                    }
                } else {
                    if d.contains(s.last()) {
                        assert(dedup(s).contains(a));
                    } else {
                        assert(d.push(s.last())[d.len() as int] == a);
                    }
                }
            }
            if dedup(s).contains(a) {
                if d.contains(s.last()) {
                    assert(s.drop_last().contains(a));
                    let i = choose|i: int| 0 <= i < s.drop_last().len() && s.drop_last()[i] == a;
                    assert(s[i] == a);
                } else {
                    let k = choose|k: int| 0 <= k < d.push(s.last()).len()
                        && d.push(s.last())[k] == a;
                    if k < d.len() {
                        assert(d[k] == a);
                        assert(s.drop_last().contains(a));
                        let i = choose|i: int| 0 <= i < s.drop_last().len()
                            && s.drop_last()[i] == a;
                        assert(s[i] == a);
                    } else {
                        assert(a == s.last());
                        assert(s[s.len() - 1] == a);
                    }
                }
            }
        }
        if !d.contains(s.last()) {
            assert forall|i: int, j: int| 0 <= i < j < dedup(s).len()
                implies dedup(s)[i] != dedup(s)[j] by {
                if j < d.len() {
                } else {
                    assert(dedup(s)[j] == s.last());
                    assert(d[i] == dedup(s)[i]);
                    assert(!d.contains(s.last()));
                }
            }
        }
        if s.len() > 1 {
            assert(dedup(s)[0] == d[0]);
            assert(s.drop_last()[0] == s[0]);
        } else {
            assert(d.len() == 0);
            assert(dedup(s) == d.push(s.last()));
            assert(dedup(s)[0] == s[0]);
        }
    }
}

/// Linear scan deciding membership in an address vector.
pub fn contains_addr(v: &Vec<u64>, a: u64) -> (r: bool)
    ensures
        r == v@.contains(a),
{
    let mut i: usize = 0;
    while i < v.len()
        invariant
            i <= v.len(),
            forall|j: int| 0 <= j < i ==> v@[j] != a,
        decreases v.len() - i,
    {
        if v[i] == a {
            return true;
        }
        i = i + 1;
    }
    false
}

// ---------------------------------------------------------------------------
// Token balance vectors
// ---------------------------------------------------------------------------

/// Balance recorded for `token`, 0 if no entry exists (first match).
pub open spec fn tb_lookup(s: Seq<TokenBalance>, token: u64) -> int
    decreases s.len(),
{
    if s.len() == 0 {
        0
    } else if s.first().token == token {
        s.first().amount as int
    } else {
        tb_lookup(s.drop_first(), token)
    }
}

/// Some entry for `token` exists.
pub open spec fn tb_has(s: Seq<TokenBalance>, token: u64) -> bool {
    exists|i: int| 0 <= i < s.len() && s[i].token == token
}

/// Sum of all recorded token balances.
pub open spec fn tb_sum(s: Seq<TokenBalance>) -> int
    decreases s.len(),
{
    if s.len() == 0 {
        0
    } else {
        s.first().amount + tb_sum(s.drop_first())
    }
}

/// No token occurs twice.
pub open spec fn tb_unique(s: Seq<TokenBalance>) -> bool {
    forall|i: int, j: int| 0 <= i < j < s.len() ==> s[i].token != s[j].token
}

/// Every recorded balance is non-negative.
pub open spec fn tb_nonneg(s: Seq<TokenBalance>) -> bool {
    forall|i: int| 0 <= i < s.len() ==> s[i].amount >= 0
}

pub proof fn lemma_tb_lookup_at(s: Seq<TokenBalance>, i: int)
    requires
        0 <= i < s.len(),
        forall|j: int| 0 <= j < i ==> s[j].token != s[i].token,
    ensures
        tb_lookup(s, s[i].token) == s[i].amount,
    decreases i,
{
    if i == 0 {
    } else {
        assert(s.drop_first()[i - 1] == s[i]);
        lemma_tb_lookup_at(s.drop_first(), i - 1);
    }
}

pub proof fn lemma_tb_lookup_absent(s: Seq<TokenBalance>, token: u64)
    requires
        !tb_has(s, token),
    ensures
        tb_lookup(s, token) == 0,
    decreases s.len(),
{
    if s.len() > 0 {
        assert(s[0].token != token);
        assert(!tb_has(s.drop_first(), token)) by {
            assert(forall|i: int|
                0 <= i < s.drop_first().len() ==> s.drop_first()[i] == s[i + 1]);
        }
        lemma_tb_lookup_absent(s.drop_first(), token);
    }
}


/// With every balance non-negative, any single balance is at most the sum.
pub proof fn lemma_tb_lookup_le_sum(s: Seq<TokenBalance>, token: u64)
    requires
        tb_nonneg(s),
    ensures
        0 <= tb_lookup(s, token),
        tb_lookup(s, token) <= tb_sum(s),
        tb_sum(s) >= 0,
    decreases s.len(),
{
    if s.len() > 0 {
        assert(tb_nonneg(s.drop_first())) by {
            assert(forall|i: int|
                0 <= i < s.drop_first().len() ==> s.drop_first()[i] == s[i + 1]);
        }
        lemma_tb_lookup_le_sum(s.drop_first(), token);
        assert(s[0].amount >= 0);
    }
}

/// Updating the entry at index `i` (keeping its token) changes exactly that
/// token's balance and shifts the sum by the difference.
pub proof fn lemma_tb_update(s: Seq<TokenBalance>, i: int, v: i128)
    requires
        0 <= i < s.len(),
        forall|j: int| 0 <= j < i ==> s[j].token != s[i].token,
    ensures
        tb_sum(s.update(i, (TokenBalance { token: s[i].token, amount: v })))
            == tb_sum(s) - s[i].amount + v,
        tb_lookup(s.update(i, (TokenBalance { token: s[i].token, amount: v })), s[i].token) == v,
        forall|t: u64| t != s[i].token
            ==> tb_lookup(s.update(i, (TokenBalance { token: s[i].token, amount: v })), t)
                == tb_lookup(s, t),
    decreases i,
{
    let s2 = s.update(i, (TokenBalance { token: s[i].token, amount: v }));
    assert(s2.len() == s.len());
    if i == 0 {
        assert(s2.drop_first() =~= s.drop_first());
        assert(s2.first() == (TokenBalance { token: s[0].token, amount: v }));
    } else {
        assert(s2.first() == s.first());
        assert(s2.drop_first() =~= s.drop_first().update(
            i - 1,
            (TokenBalance { token: s[i].token, amount: v }),
        ));
        assert(s.drop_first()[i - 1] == s[i]);
        lemma_tb_update(s.drop_first(), i - 1, v);
        assert forall|t: u64| t != s[i].token implies tb_lookup(s2, t) == tb_lookup(s, t) by {
            if s.first().token != t {
                assert(tb_lookup(s2, t) == tb_lookup(s2.drop_first(), t));
                assert(tb_lookup(s, t) == tb_lookup(s.drop_first(), t));
            }
        }
    }
}

/// Appending an entry for a token with no existing entry records its balance,
/// leaves every other token's balance alone, and adds to the sum.
pub proof fn lemma_tb_push(s: Seq<TokenBalance>, e: TokenBalance)
    requires
        !tb_has(s, e.token),
    ensures
        tb_sum(s.push(e)) == tb_sum(s) + e.amount,
        tb_lookup(s.push(e), e.token) == e.amount,
        forall|t: u64| t != e.token ==> tb_lookup(s.push(e), t) == tb_lookup(s, t),
    decreases s.len(),
{
    if s.len() == 0 {
        assert(s.push(e).drop_first() =~= Seq::<TokenBalance>::empty());
        assert(s.push(e).first() == e);
        assert(tb_sum(Seq::<TokenBalance>::empty()) == 0);
        assert forall|t: u64| t != e.token implies tb_lookup(s.push(e), t) == tb_lookup(s, t) by {
            assert(tb_lookup(Seq::<TokenBalance>::empty(), t) == 0);
            assert(tb_lookup(s.push(e), t) == tb_lookup(s.push(e).drop_first(), t));
        }
    } else {
        assert(s[0].token != e.token);
        assert(s.push(e).first() == s.first());
        assert(s.push(e).drop_first() =~= s.drop_first().push(e));
        assert(!tb_has(s.drop_first(), e.token)) by {
            assert(forall|i: int|
                0 <= i < s.drop_first().len() ==> s.drop_first()[i] == s[i + 1]);
        }
        lemma_tb_push(s.drop_first(), e);
        assert(tb_lookup(s.push(e), e.token) == tb_lookup(s.drop_first().push(e), e.token));
        assert forall|t: u64| t != e.token implies tb_lookup(s.push(e), t) == tb_lookup(s, t) by {
            if s.first().token != t {
                assert(tb_lookup(s.push(e), t) == tb_lookup(s.drop_first().push(e), t));
                assert(tb_lookup(s, t) == tb_lookup(s.drop_first(), t));
            }
        }
    }
}

// ---------------------------------------------------------------------------
// Budget vectors, keyed by (treasury, category)
// ---------------------------------------------------------------------------

/// The budget entry is keyed by this treasury and category.
pub open spec fn budget_key(b: Budget, tid: u64, cat: Seq<char>) -> bool {
    b.treasury_id == tid && b.category@ == cat
}

/// Index of the first budget entry for the key, or -1 if none exists.
pub open spec fn budget_idx(s: Seq<Budget>, tid: u64, cat: Seq<char>) -> int
    decreases s.len(),
{
    if s.len() == 0 {
        -1
    } else if budget_key(s.first(), tid, cat) {
        0
    } else {
        let r = budget_idx(s.drop_first(), tid, cat);
        if r < 0 {
            -1
        } else {
            r + 1
        }
    }
}

pub open spec fn budget_has(s: Seq<Budget>, tid: u64, cat: Seq<char>) -> bool {
    budget_idx(s, tid, cat) >= 0
}

/// The budget entry for the key; meaningful only when `budget_has` holds.
pub open spec fn budget_at(s: Seq<Budget>, tid: u64, cat: Seq<char>) -> Budget {
    s[budget_idx(s, tid, cat)]
}

pub proof fn lemma_budget_idx(s: Seq<Budget>, tid: u64, cat: Seq<char>)
    ensures
        budget_idx(s, tid, cat) >= 0 ==> {
            &&& budget_idx(s, tid, cat) < s.len()
            &&& budget_key(s[budget_idx(s, tid, cat)], tid, cat)
            &&& forall|j: int| 0 <= j < budget_idx(s, tid, cat) ==> !budget_key(s[j], tid, cat)
        },
        budget_idx(s, tid, cat) < 0 ==> forall|j: int|
            0 <= j < s.len() ==> !budget_key(s[j], tid, cat),
    decreases s.len(),
{
    if s.len() > 0 && !budget_key(s.first(), tid, cat) {
        lemma_budget_idx(s.drop_first(), tid, cat);
        let r = budget_idx(s.drop_first(), tid, cat);
        if r >= 0 {
            assert(s[r + 1] == s.drop_first()[r]);
            assert forall|j: int| 0 <= j < budget_idx(s, tid, cat)
                implies !budget_key(s[j], tid, cat) by {
                if j > 0 {
                    assert(s[j] == s.drop_first()[j - 1]);
                }
            }
        } else {
            assert forall|j: int| 0 <= j < s.len() implies !budget_key(s[j], tid, cat) by {
                if j > 0 {
                    assert(s[j] == s.drop_first()[j - 1]);
                }
            }
        }
    }
}

/// An index that is the first match for the key is the lookup index.
pub proof fn lemma_budget_idx_is(s: Seq<Budget>, tid: u64, cat: Seq<char>, i: int)
    requires
        0 <= i < s.len(),
        budget_key(s[i], tid, cat),
        forall|j: int| 0 <= j < i ==> !budget_key(s[j], tid, cat),
    ensures
        budget_idx(s, tid, cat) == i,
    decreases i,
{
    if i > 0 {
        assert(s.drop_first()[i - 1] == s[i]);
        assert(forall|j: int| 0 <= j < i - 1 ==> s.drop_first()[j] == s[j + 1]);
        lemma_budget_idx_is(s.drop_first(), tid, cat, i - 1);
    }
}



// ---------------------------------------------------------------------------
// Allowance vectors, keyed by (treasury, admin, token)
// ---------------------------------------------------------------------------

/// The allowance entry is keyed by this treasury, admin and token.
pub open spec fn allowance_key(a: Allowance, tid: u64, admin: u64, token: Option<u64>) -> bool {
    a.treasury_id == tid && a.admin == admin && a.token == token
}

/// Index of the first allowance entry for the key, or -1 if none exists.
pub open spec fn allowance_idx(s: Seq<Allowance>, tid: u64, admin: u64, token: Option<u64>) -> int
    decreases s.len(),
{
    if s.len() == 0 {
        -1
    } else if allowance_key(s.first(), tid, admin, token) {
        0
    } else {
        let r = allowance_idx(s.drop_first(), tid, admin, token);
        if r < 0 {
            -1
        } else {
            r + 1
        }
    }
}

pub open spec fn allowance_has(s: Seq<Allowance>, tid: u64, admin: u64, token: Option<u64>) -> bool {
    allowance_idx(s, tid, admin, token) >= 0
}

/// The allowance entry for the key; meaningful only when `allowance_has` holds.
pub open spec fn allowance_at(s: Seq<Allowance>, tid: u64, admin: u64, token: Option<u64>) -> Allowance {
    s[allowance_idx(s, tid, admin, token)]
}

pub proof fn lemma_allowance_idx(s: Seq<Allowance>, tid: u64, admin: u64, token: Option<u64>)
    ensures
        allowance_idx(s, tid, admin, token) >= 0 ==> {
            &&& allowance_idx(s, tid, admin, token) < s.len()
            &&& allowance_key(s[allowance_idx(s, tid, admin, token)], tid, admin, token)
            &&& forall|j: int| 0 <= j < allowance_idx(s, tid, admin, token)
                ==> !allowance_key(s[j], tid, admin, token)
        },
        allowance_idx(s, tid, admin, token) < 0 ==> forall|j: int|
            0 <= j < s.len() ==> !allowance_key(s[j], tid, admin, token),
    decreases s.len(),
{
    if s.len() > 0 && !allowance_key(s.first(), tid, admin, token) {
        lemma_allowance_idx(s.drop_first(), tid, admin, token);
        let r = allowance_idx(s.drop_first(), tid, admin, token);
        if r >= 0 {
            assert(s[r + 1] == s.drop_first()[r]);
            assert forall|j: int| 0 <= j < allowance_idx(s, tid, admin, token)
                implies !allowance_key(s[j], tid, admin, token) by {
                if j > 0 {
                    assert(s[j] == s.drop_first()[j - 1]);
                }
            }
        } else {
            assert forall|j: int| 0 <= j < s.len()
                implies !allowance_key(s[j], tid, admin, token) by {
                if j > 0 {
                    assert(s[j] == s.drop_first()[j - 1]);
                }
            }
        }
    }
}

/// An index that is the first match for the key is the lookup index.
pub proof fn lemma_allowance_idx_is(
    s: Seq<Allowance>,
    tid: u64,
    admin: u64,
    token: Option<u64>,
    i: int,
)
    requires
        0 <= i < s.len(),
        allowance_key(s[i], tid, admin, token),
        forall|j: int| 0 <= j < i ==> !allowance_key(s[j], tid, admin, token),
    ensures
        allowance_idx(s, tid, admin, token) == i,
    decreases i,
{
    if i > 0 {
        assert(s.drop_first()[i - 1] == s[i]);
        assert(forall|j: int| 0 <= j < i - 1 ==> s.drop_first()[j] == s[j + 1]);
        lemma_allowance_idx_is(s.drop_first(), tid, admin, token, i - 1);
    }
}



// ---------------------------------------------------------------------------
// Well-formedness
// ---------------------------------------------------------------------------

impl Treasury {
    /// `a` is one of the treasury's signers.
    pub open spec fn spec_is_signer(self, a: u64) -> bool {
        self.signers@.contains(a)
    }

    /// The recorded balance of `token` (`None` = native).
    pub open spec fn spec_balance_of(self, token: Option<u64>) -> int {
        match token {
            Option::None => self.balance_xlm as int,
            Option::Some(t) => tb_lookup(self.token_balances@, t),
        }
    }

    /// Invariant of a treasury: a valid signer set and threshold, non-negative
    /// balances and counters, and conservation of funds: what is held plus
    /// what was withdrawn is exactly what was deposited.
    pub open spec fn wf(self) -> bool {
        &&& self.signers@.len() >= 1
        &&& self.signers@.len() <= u32::MAX
        &&& addrs_unique(self.signers@)
        &&& self.owner == self.signers@[0]
        &&& crate::multisig::threshold_ok(self.signers@.len() as u32, self.approval_threshold)
        &&& self.balance_xlm >= 0
        &&& tb_unique(self.token_balances@)
        &&& tb_nonneg(self.token_balances@)
        &&& self.total_deposits >= 0
        &&& self.total_withdrawals >= 0
        &&& self.balance_xlm + tb_sum(self.token_balances@) + self.total_withdrawals
            == self.total_deposits
    }

    /// Linear scan deciding signer membership.
    pub fn is_signer(&self, a: u64) -> (r: bool)
        ensures
            r == self.spec_is_signer(a),
    {
        let mut i: usize = 0;
        while i < self.signers.len()
            invariant
                i <= self.signers.len(),
                forall|j: int| 0 <= j < i ==> self.signers@[j] != a,
            decreases self.signers.len() - i,
    {
            if self.signers[i] == a {
                return true;
            }
            i = i + 1;
        }
        false
    }
}

impl Transaction {
    /// `a` already approved this transaction.
    pub open spec fn spec_has_approved(self, a: u64) -> bool {
        self.approvals@.contains(a)
    }

    /// Invariant of a transaction: positive amount, duplicate-free approvals,
    /// a deadline not before creation, and a recipient wherever value moves.
    pub open spec fn wf(self) -> bool {
        &&& self.amount > 0
        &&& addrs_unique(self.approvals@)
        &&& self.created_at <= self.expires_at
        &&& self.is_value_moving() ==> self.recipient is Some
    }

    /// Transaction types that move funds out of the treasury on execution.
    pub open spec fn is_value_moving(self) -> bool {
        self.tx_type == TransactionType::Withdrawal
            || self.tx_type == TransactionType::BountyFunding
            || self.tx_type == TransactionType::MilestonePayment
    }

    /// The status admits no further transition.
    pub open spec fn is_terminal(self) -> bool {
        self.status == TransactionStatus::Rejected
            || self.status == TransactionStatus::Executed
            || self.status == TransactionStatus::Expired
    }

    /// Linear scan deciding whether `a` already approved.
    pub fn has_approved(&self, a: u64) -> (r: bool)
        ensures
            r == self.spec_has_approved(a),
    {
        let mut i: usize = 0;
        while i < self.approvals.len()
            invariant
                i <= self.approvals.len(),
                forall|j: int| 0 <= j < i ==> self.approvals@[j] != a,
            decreases self.approvals.len() - i,
        {
            if self.approvals[i] == a {
                return true;
            }
            i = i + 1;
        }
        false
    }
}

impl Budget {
    /// Invariant of a budget row: nothing negative was ever spent.
    pub open spec fn wf(self) -> bool {
        self.spent_amount >= 0
    }
}

impl Allowance {
    /// Invariant of an allowance row: the remainder stays between zero and
    /// the per-period grant.
    pub open spec fn wf(self) -> bool {
        &&& self.amount_per_period >= 0
        &&& 0 <= self.remaining_amount <= self.amount_per_period
    }
}

/// Field-wise sameness of two transactions (the contents, compared through
/// views where the fields hold vectors or text).
pub open spec fn tx_eq(a: Transaction, b: Transaction) -> bool {
    &&& a.id == b.id
    &&& a.treasury_id == b.treasury_id
    &&& a.tx_type == b.tx_type
    &&& a.amount == b.amount
    &&& a.token == b.token
    &&& a.recipient == b.recipient
    &&& a.proposer == b.proposer
    &&& a.approvals@ == b.approvals@
    &&& a.status == b.status
    &&& a.created_at == b.created_at
    &&& a.expires_at == b.expires_at
    &&& a.reason@ == b.reason@
}

impl Transaction {
    /// A deep copy whose every field equals the original's.
    pub fn clone_tx(&self) -> (r: Transaction)
        ensures
            tx_eq(r, *self),
            r.wf() == self.wf(),
    {
        let mut approvals: Vec<u64> = Vec::new();
        let mut i: usize = 0;
        while i < self.approvals.len()
            invariant
                i <= self.approvals.len(),
                approvals@ == self.approvals@.take(i as int),
            decreases self.approvals.len() - i,
        {
            approvals.push(self.approvals[i]);
            assert(approvals@ =~= self.approvals@.take(i as int + 1));
            i = i + 1;
        }
        assert(approvals@ =~= self.approvals@);
        let r = Transaction {
            id: self.id,
            treasury_id: self.treasury_id,
            tx_type: self.tx_type,
            amount: self.amount,
            token: self.token,
            recipient: self.recipient,
            proposer: self.proposer,
            approvals,
            status: self.status,
            created_at: self.created_at,
            expires_at: self.expires_at,
            reason: self.reason.clone(),
        };
        r
    }
}

} // verus!
