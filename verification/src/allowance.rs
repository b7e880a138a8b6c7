//! Token-allowance ledger types: ERC-20 style approvals with expiry and
//! per-operation granularity. This ledger is independent of the treasury's
//! own per-admin recurring allowances and shares none of its invariants.

use vstd::prelude::*;

verus! {

/// Which operations an allowance permits; `Any` permits all of them.
#[derive(Clone, Copy, Debug, Eq, PartialEq, Structural)]
pub enum AllowanceOperation {
    Any,
    Withdrawal,
    BountyFunding,
    MilestonePayment,
    Escrow,
}

/// Error kinds of token-allowance operations.
#[derive(Copy, Clone, Debug, Eq, PartialEq, PartialOrd, Ord)]
pub enum AllowanceError {
    NotFound,
    Expired,
    InsufficientAllowance,
    Unauthorized,
    OperationNotPermitted,
    InvalidAmount,
}

/// A token allowance: `owner` lets `spender` consume up to `amount` of
/// `token` (`None` = native) until `expires_at`.
#[derive(Clone, Copy, Debug, Eq, PartialEq, Structural)]
pub struct TokenAllowance {
    /// Account that owns the tokens and granted the approval.
    pub owner: u64,
    /// Account permitted to spend on behalf of the owner.
    pub spender: u64,
    /// Token (`None` = native).
    pub token: Option<u64>,
    /// Total amount approved.
    pub amount: i128,
    /// Amount already consumed.
    pub spent: i128,
    /// Ledger timestamp after which the allowance is invalid (0 = no expiry).
    pub expires_at: u64,
    /// Which operation type(s) the allowance permits.
    pub operation: AllowanceOperation,
    /// Ledger timestamp of creation or last modification.
    pub created_at: u64,
}

impl TokenAllowance {
    /// The remaining spendable amount: the difference between the approved
    /// amount and what was consumed, saturating at the numeric bounds.
    pub fn remaining(&self) -> (r: i128)
        ensures
            r == (if self.amount - self.spent > i128::MAX {
                i128::MAX as int
            } else if self.amount - self.spent < i128::MIN {
                i128::MIN as int
            } else {
                self.amount - self.spent
            }),
    {
        match self.amount.checked_sub(self.spent) {
            Some(d) => d,
            None => {
                if self.spent < 0 {
                    i128::MAX
                } else {
                    i128::MIN
                }
            },
        }
    }

    /// Whether the allowance has expired relative to `now` (an expiry of 0
    /// means it never expires).
    pub fn is_expired(&self, now: u64) -> (r: bool)
        ensures
            r == (self.expires_at > 0 && now >= self.expires_at),
    {
        self.expires_at > 0 && now >= self.expires_at
    }

    /// Whether the allowance permits the given operation type.
    pub fn permits_operation(&self, op: &AllowanceOperation) -> (r: bool)
        ensures
            r == (self.operation == AllowanceOperation::Any || self.operation == *op),
    {
        matches!(self.operation, AllowanceOperation::Any) || self.operation == *op
    }
}

} // verus!
