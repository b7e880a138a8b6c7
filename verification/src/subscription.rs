//! Data model of the subscription billing module. The treasury engine treats
//! billing as an external collaborator; these are the plain value types and
//! rules it shares with the platform.

use vstd::prelude::*;

verus! {

/// Billing cycle options for subscriptions.
#[derive(Clone, Copy, Debug, Eq, PartialEq, Structural)]
pub enum BillingCycle {
    /// Weekly billing (7 days).
    Weekly,
    /// Monthly billing (30 days).
    Monthly,
    /// Quarterly billing (90 days).
    Quarterly,
    /// Annual billing (365 days).
    Annually,
}

impl BillingCycle {
    /// The duration in seconds of each billing cycle.
    pub fn duration_seconds(&self) -> (r: u64)
        ensures
            self is Weekly ==> r == 604800,
            self is Monthly ==> r == 2592000,
            self is Quarterly ==> r == 7776000,
            self is Annually ==> r == 31536000,
    {
        match self {
            BillingCycle::Weekly => 7 * 24 * 60 * 60,
            BillingCycle::Monthly => 30 * 24 * 60 * 60,
            BillingCycle::Quarterly => 90 * 24 * 60 * 60,
            BillingCycle::Annually => 365 * 24 * 60 * 60,
        }
    }
}

/// Status of a subscription.
#[derive(Clone, Copy, Debug, Eq, PartialEq, Structural)]
pub enum SubscriptionStatus {
    /// Active and billing normally.
    Active,
    /// Paused: no billing, benefits retained temporarily.
    Paused,
    /// In grace period after a failed payment.
    GracePeriod,
    /// Cancelled.
    Cancelled,
    /// Expired: end of term reached.
    Expired,
}

/// Tier level for membership subscriptions, ordered from fewest to most
/// features.
#[derive(Clone, Copy, Debug, Eq, PartialEq, PartialOrd, Ord)]
pub enum MembershipTier {
    Basic,
    Standard,
    Premium,
    Enterprise,
}

/// Payment retry configuration.
#[derive(Clone, Copy, Debug, Eq, PartialEq, Structural)]
pub struct RetryConfig {
    /// Maximum number of retry attempts.
    pub max_retries: u32,
    /// Initial retry delay in seconds.
    pub initial_delay_seconds: u64,
    /// Retry backoff multiplier.
    pub backoff_multiplier: u32,
    /// Grace period duration in seconds.
    pub grace_period_seconds: u64,
}

impl Default for RetryConfig {
    /// Three retries, starting a day apart with doubling backoff, and a
    /// seven-day grace period.
    fn default() -> (r: RetryConfig)
        ensures
            r.max_retries == 3,
            r.initial_delay_seconds == 86400,
            r.backoff_multiplier == 2,
            r.grace_period_seconds == 604800,
    {
        RetryConfig {
            max_retries: 3,
            initial_delay_seconds: 24 * 60 * 60,
            backoff_multiplier: 2,
            grace_period_seconds: 7 * 24 * 60 * 60,
        }
    }
}

/// Proration calculation result.
#[derive(Clone, Copy, Debug, Eq, PartialEq, Structural)]
pub struct ProrationResult {
    /// Amount to charge or credit.
    pub amount: i128,
    /// Whether this is a charge (true) or credit (false).
    pub is_charge: bool,
    /// Days remaining in the current cycle.
    pub days_remaining: u64,
    /// Total days in the cycle.
    pub total_days: u64,
}

/// Error kinds of subscription operations.
#[derive(Copy, Clone, Debug, Eq, PartialEq, PartialOrd, Ord)]
pub enum SubscriptionError {
    PlanNotFound,
    SubscriptionNotFound,
    InvalidBillingCycle,
    InvalidPrice,
    PlanNotActive,
    SubscriptionNotActive,
    SubscriptionAlreadyExists,
    Unauthorized,
    PaymentFailed,
    MaxRetriesExceeded,
    InvalidTierChange,
    ArithmeticOverflow,
    AlreadyCancelled,
    NotInGracePeriod,
    InvalidState,
    RevenueRecordNotFound,
}

/// Event emitted when a payment is processed.
#[derive(Clone, Copy, Debug, Eq, PartialEq, Structural)]
pub struct PaymentProcessedEvent {
    pub subscription_id: u64,
    pub amount: i128,
    pub success: bool,
    pub retry_attempt: u32,
}

/// Event emitted when a subscription enters its grace period.
#[derive(Clone, Copy, Debug, Eq, PartialEq, Structural)]
pub struct GracePeriodStartedEvent {
    pub subscription_id: u64,
    pub grace_period_ends_at: u64,
    pub failed_payment_count: u32,
}

/// Event emitted when a subscription tier is changed.
#[derive(Clone, Copy, Debug, Eq, PartialEq)]
pub struct TierChangedEvent {
    pub subscription_id: u64,
    pub old_tier: MembershipTier,
    pub new_tier: MembershipTier,
    pub proration_amount: i128,
}

/// Event emitted when revenue is recorded.
#[derive(Clone, Copy, Debug, Eq, PartialEq, Structural)]
pub struct RevenueRecordedEvent {
    pub record_id: u64,
    pub guild_id: u64,
    pub subscription_id: u64,
    pub amount: i128,
    pub paid_at: u64,
}

} // verus!
