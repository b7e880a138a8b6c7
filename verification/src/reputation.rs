//! Reputation scoring primitives, an external collaborator of the treasury:
//! time-decayed scores and the integer square root used for governance
//! weight bonuses.

use vstd::prelude::*;

verus! {

/// One decay period: a week.
pub const DECAY_PERIOD_SECS: u64 = 604800;

/// Per-period decay factor numerator.
pub const DECAY_NUMERATOR: u64 = 99;

/// Per-period decay factor denominator.
pub const DECAY_DENOMINATOR: u64 = 100;

/// Decay is applied for at most this many periods per update.
pub const MAX_DECAY_PERIODS: u64 = 52;

/// A member's reputation within one guild.
#[derive(Clone, Copy, Debug, Eq, PartialEq, Structural)]
pub struct ReputationProfile {
    pub address: u64,
    pub guild_id: u64,
    /// Lifetime points earned; never decays.
    pub total_score: u64,
    /// Points with time decay applied.
    pub decayed_score: u64,
    pub contributions_count: u32,
    pub last_activity: u64,
    pub last_decay_applied: u64,
}

/// `score` multiplied by 99/100 (rounding down), `k` times over.
pub open spec fn spec_decayed(score: int, k: int) -> int
    decreases k,
{
    if k <= 0 {
        score
    } else {
        (spec_decayed(score, k - 1) * 99) / 100
    }
}

/// Decay never increases a non-negative score.
pub proof fn lemma_decay_le(score: int, k: int)
    requires
        score >= 0,
    ensures
        0 <= spec_decayed(score, k) <= score,
    decreases if k > 0 {
        k
    } else {
        0
    },
{
    if k > 0 {
        lemma_decay_le(score, k - 1);
    }
}

/// Applies time-based decay to the profile's decayed score: one 99/100 step
/// for each whole period elapsed since decay was last applied, capped at
/// `MAX_DECAY_PERIODS` steps, and stamps the profile with `now`. A profile
/// with no whole period elapsed is left untouched.
pub fn apply_decay_to_profile(profile: &mut ReputationProfile, now: u64)
    requires
        old(profile).decayed_score <= u64::MAX / 99,
    ensures
        ({
            let elapsed_periods = (now - old(profile).last_decay_applied)
                / (DECAY_PERIOD_SECS as int);
            if now <= old(profile).last_decay_applied || elapsed_periods == 0 {
                *final(profile) == *old(profile)
            } else {
                let k = if elapsed_periods > MAX_DECAY_PERIODS {
                    MAX_DECAY_PERIODS as int
                } else {
                    elapsed_periods
                };
                *final(profile) == (ReputationProfile {
                    decayed_score: spec_decayed(old(profile).decayed_score as int, k) as u64,
                    last_decay_applied: now,
                    ..*old(profile)
                })
            }
        }),
{
    if now <= profile.last_decay_applied {
        return;
    }
    let elapsed = now - profile.last_decay_applied;
    let periods = elapsed / DECAY_PERIOD_SECS;
    if periods == 0 {
        return;
    }
    let capped_periods = if periods > MAX_DECAY_PERIODS {
        MAX_DECAY_PERIODS
    } else {
        periods
    };
    let s0 = profile.decayed_score;
    let mut score = s0;
    let mut j: u64 = 0;
    while j < capped_periods
        invariant
            j <= capped_periods,
            score == spec_decayed(s0 as int, j as int),
            0 <= score <= s0,
            s0 <= u64::MAX / 99,
        decreases capped_periods - j,
    {
        score = (score * DECAY_NUMERATOR) / DECAY_DENOMINATOR;
        j = j + 1;
    }
    profile.decayed_score = score;
    profile.last_decay_applied = now;
}

/// `r` is the integer square root of `n`.
pub open spec fn is_sqrt(n: int, r: int) -> bool {
    r >= 0 && r * r <= n && n < (r + 1) * (r + 1)
}

/// The integer square root, by Newton's method.
pub fn integer_sqrt(n: u64) -> (r: u64)
    requires
        n < u64::MAX,
    ensures
        is_sqrt(n as int, r as int),
{
    if n == 0 {
        proof {
            assert(is_sqrt(0, 0)) by (nonlinear_arith);
        }
        return 0;
    }
    let mut x = n;
    let mut y = (x + 1) / 2;
    proof {
        assert((x + 1) * (x + 1) > n) by (nonlinear_arith)
            requires
                x == n && n >= 1,
        ;
        assert(n as int / n as int == 1) by (nonlinear_arith)
            requires
                n >= 1,
        ;
        assert(y == (x + n / x) / 2);
    }
    while y < x
        invariant
            1 <= x <= n < u64::MAX,
            (x + 1) * (x + 1) > n,
            y == (x + n / x) / 2,
        decreases x,
    {
        proof {
            let xi = x as int;
            let yi = y as int;
            let qi = n as int / xi;
            assert(xi * qi <= n < xi * (qi + 1)) by (nonlinear_arith)
                requires
                    xi >= 1,
                    qi == n as int / xi,
                    n >= 1,
            ;
            // the next iterate still over-approximates the root
            assert((yi + 1) * (yi + 1) > n) by (nonlinear_arith)
                requires
                    xi >= 1,
                    qi >= 0,
                    xi * qi <= n,
                    n < xi * (qi + 1),
                    2 * yi <= xi + qi < 2 * yi + 2,
            ;
            assert(yi >= 1) by (nonlinear_arith)
                requires
                    xi >= 1,
                    qi >= 0,
                    n >= 1,
                    xi * qi <= n,
                    n < xi * (qi + 1),
                    2 * yi <= xi + qi < 2 * yi + 2,
            ;
        }
        x = y;
        let q = n / x;
        proof {
            let xi = x as int;
            let qi = q as int;
            assert(xi * qi <= n) by (nonlinear_arith)
                requires
                    xi >= 1,
                    qi == n as int / xi,
                    n >= 1,
            ;
            // x + n/x never exceeds n + 1, so the sum below cannot overflow
            assert(xi + qi <= n + 1) by (nonlinear_arith)
                requires
                    1 <= xi <= n,
                    qi >= 0,
                    xi * qi <= n,
            ;
        }
        y = (x + q) / 2;
    }
    proof {
        let xi = x as int;
        let yi = y as int;
        let qi = n as int / xi;
        assert(xi * qi <= n) by (nonlinear_arith)
            requires
                xi >= 1,
                qi == n as int / xi,
                n >= 1,
        ;
        // at exit y >= x, so x <= n/x and hence x * x <= n
        assert(xi * xi <= n) by (nonlinear_arith)
            requires
                xi >= 1,
                yi >= xi,
                2 * yi <= xi + qi,
                xi * qi <= n,
        ;
    }
    x
}

} // verus!
