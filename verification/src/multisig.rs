//! Threshold and approval rules of the M-of-N protocol.

use vstd::prelude::*;
use crate::types::{Transaction, TransactionStatus, TransactionType, Treasury};

verus! {

/// Proposals expire seven days after creation.
pub const TX_EXPIRY_SECONDS: u64 = 604800;

/// True when `threshold` is a valid M-of-N approval threshold for
/// `signers_len` signers: at least 1, at most N, and at least ceil(N/2).
pub open spec fn threshold_ok(signers_len: u32, threshold: u32) -> bool {
    &&& signers_len > 0
    &&& threshold > 0
    &&& threshold <= signers_len
    &&& threshold >= (signers_len + 1) / 2
}

/// Checks the M-of-N threshold invariant: a treasury with `signers_len`
/// signers may only be configured with a threshold between ceil(N/2) and N.
pub fn validate_threshold(signers_len: u32, threshold: u32) -> (r: bool)
    ensures
        r == threshold_ok(signers_len, threshold),
{
    if signers_len == 0 {
        return false;
    }
    if threshold == 0 || threshold > signers_len {
        return false;
    }
    let half = signers_len / 2 + signers_len % 2;
    assert(half == (signers_len + 1) / 2);
    threshold >= half
}

/// How many approvals the transaction needs: value-moving transactions at or
/// above the treasury's high-value threshold need the full approval
/// threshold; low-value ones need a single approval (but never more than the
/// threshold itself); every other type needs exactly one.
pub open spec fn spec_required_approvals(t: Treasury, tx: Transaction) -> u32 {
    match tx.tx_type {
        TransactionType::Withdrawal
        | TransactionType::BountyFunding
        | TransactionType::MilestonePayment => {
            if tx.amount >= t.high_value_threshold {
                t.approval_threshold
            } else {
                if t.approval_threshold < 1 {
                    t.approval_threshold
                } else {
                    1u32
                }
            }
        },
        _ => 1u32,
    }
}

/// Computes the required-approvals rule for a transaction of this treasury.
pub fn required_approvals_for_tx(t: &Treasury, tx: &Transaction) -> (r: u32)
    ensures
        r == spec_required_approvals(*t, *tx),
{
    match tx.tx_type {
        TransactionType::Withdrawal
        | TransactionType::BountyFunding
        | TransactionType::MilestonePayment => {
            if tx.amount >= t.high_value_threshold {
                t.approval_threshold
            } else {
                if t.approval_threshold < 1 {
                    t.approval_threshold
                } else {
                    1u32
                }
            }
        },
        _ => 1u32,
    }
}

/// Appends `addr`'s approval to the transaction. A duplicate approval must
/// be rejected by the caller beforehand; it never double-counts.
pub fn add_approval(tx: &mut Transaction, addr: u64)
    requires
        !old(tx).spec_has_approved(addr),
    ensures
        final(tx).approvals@ == old(tx).approvals@.push(addr),
        *final(tx) == (Transaction { approvals: final(tx).approvals, ..*old(tx) }),
{
    tx.approvals.push(addr);
}

/// The transaction's deadline has passed at time `now`.
pub open spec fn spec_is_expired(tx: Transaction, now: u64) -> bool {
    now >= tx.expires_at
}

/// Whether the transaction's deadline has passed at time `now`.
pub fn is_expired(tx: &Transaction, now: u64) -> (r: bool)
    ensures
        r == spec_is_expired(*tx, now),
{
    now >= tx.expires_at
}

/// A live (pending or approved) transaction whose deadline has passed must be
/// marked expired the first time any call observes it.
pub open spec fn spec_should_expire(tx: Transaction, now: u64) -> bool {
    &&& tx.status == TransactionStatus::Pending || tx.status == TransactionStatus::Approved
    &&& spec_is_expired(tx, now)
}

/// Lazily expires the transaction: a live transaction past its deadline
/// becomes `Expired`; anything else is left untouched.
pub fn expire_if_needed(tx: &mut Transaction, now: u64)
    ensures
        spec_should_expire(*old(tx), now) ==> *final(tx) == (Transaction {
            status: TransactionStatus::Expired,
            ..*old(tx)
        }),
        !spec_should_expire(*old(tx), now) ==> *final(tx) == *old(tx),
{
    if (matches!(tx.status, TransactionStatus::Pending | TransactionStatus::Approved))
        && is_expired(tx, now) {
        tx.status = TransactionStatus::Expired;
    }
}

} // verus!
