//! Data model and share arithmetic of the payment-pool distribution module,
//! an independent ledger beside the treasury.

use vstd::prelude::*;
use crate::analytics::div_trunc;

verus! {

/// Error kinds of payment distribution operations.
#[derive(Copy, Clone, Debug, Eq, PartialEq, PartialOrd, Ord)]
pub enum PaymentError {
    PoolNotFound,
    PoolNotPending,
    Unauthorized,
    InvalidShare,
    DuplicateRecipient,
    SharesNot100Percent,
    NoRecipients,
    InsufficientBalance,
    TransferFailed,
    ArithmeticOverflow,
    InvalidAmount,
}

/// Storage key space of the payment module.
#[derive(Clone, Copy, Debug, PartialEq, Eq, Structural)]
pub enum PaymentStorageKey {
    NextPoolId,
    Pool(u64),
    Recipients(u64),
}

/// How a pool's total is split among its recipients.
#[derive(Clone, Copy, Debug, PartialEq, Eq, Structural)]
pub enum DistributionRule {
    /// Each recipient's share is a percentage of the total.
    Percentage,
    /// The total is split evenly.
    EqualSplit,
    /// Each recipient's share is a weight over the total weight.
    Weighted,
}

/// Lifecycle of a payment pool.
#[derive(Clone, Copy, Debug, PartialEq, Eq, Structural)]
pub enum DistributionStatus {
    Pending,
    Completed,
    Cancelled,
}

/// A pool of funds to distribute.
#[derive(Clone, Copy, Debug, PartialEq, Eq, Structural)]
pub struct PaymentPool {
    pub id: u64,
    pub total_amount: i128,
    /// Token (`None` = native).
    pub token: Option<u64>,
    pub status: DistributionStatus,
    pub created_by: u64,
    pub rule: DistributionRule,
    pub created_at: u64,
}

/// One recipient of a pool, with its percentage or weight share.
#[derive(Clone, Copy, Debug, PartialEq, Eq, Structural)]
pub struct Recipient {
    pub address: u64,
    pub share: u32,
}

/// The amount owed to one recipient under the pool's distribution rule, or
/// `ArithmeticOverflow` when the share arithmetic cannot be carried out
/// (an overflowing product, an even split among zero recipients, or a
/// weighted split without or with a zero total weight).
pub fn calculate_recipient_amount(
    pool: &PaymentPool,
    recipient: &Recipient,
    total_recipients: u32,
    total_weight: Option<u32>,
) -> (r: Result<i128, PaymentError>)
    ensures
        pool.rule == DistributionRule::Percentage ==> {
            if pool.total_amount * (recipient.share as int) > i128::MAX || pool.total_amount
                * (recipient.share as int) < i128::MIN {
                r == Err::<i128, PaymentError>(PaymentError::ArithmeticOverflow)
            } else {
                r == Ok::<i128, PaymentError>(
                    div_trunc(pool.total_amount * (recipient.share as int), 100) as i128,
                )
            }
        },
        pool.rule == DistributionRule::EqualSplit ==> {
            if total_recipients == 0 {
                r == Err::<i128, PaymentError>(PaymentError::ArithmeticOverflow)
            } else {
                r == Ok::<i128, PaymentError>(
                    div_trunc(pool.total_amount as int, total_recipients as int) as i128,
                )
            }
        },
        pool.rule == DistributionRule::Weighted ==> (match total_weight {
            Option::None => r == Err::<i128, PaymentError>(PaymentError::ArithmeticOverflow),
            Option::Some(w) => {
                if w == 0 {
                    r == Err::<i128, PaymentError>(PaymentError::ArithmeticOverflow)
                } else if pool.total_amount * (recipient.share as int) > i128::MAX
                    || pool.total_amount * (recipient.share as int) < i128::MIN {
                    r == Err::<i128, PaymentError>(PaymentError::ArithmeticOverflow)
                } else {
                    r == Ok::<i128, PaymentError>(
                        div_trunc(pool.total_amount * (recipient.share as int), w as int) as i128,
                    )
                }
            },
        }),
{
    match pool.rule {
        DistributionRule::Percentage => {
            let product = match pool.total_amount.checked_mul(recipient.share as i128) {
                Some(p) => p,
                None => {
                    return Err(PaymentError::ArithmeticOverflow);
                },
            };
            match product.checked_div(100) {
                Some(a) => Ok(a),
                None => Err(PaymentError::ArithmeticOverflow),
            }
        },
        DistributionRule::EqualSplit => {
            match pool.total_amount.checked_div(total_recipients as i128) {
                Some(a) => Ok(a),
                None => Err(PaymentError::ArithmeticOverflow),
            }
        },
        DistributionRule::Weighted => {
            match total_weight {
                Some(total_w) => {
                    let product = match pool.total_amount.checked_mul(recipient.share as i128) {
                        Some(p) => p,
                        None => {
                            return Err(PaymentError::ArithmeticOverflow);
                        },
                    };
                    match product.checked_div(total_w as i128) {
                        Some(a) => Ok(a),
                        None => Err(PaymentError::ArithmeticOverflow),
                    }
                },
                None => Err(PaymentError::ArithmeticOverflow),
            }
        },
    }
}

} // verus!
