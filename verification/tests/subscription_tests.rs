//! Billing-cycle and membership-tier rules of the subscription module.

use guild_treasury::subscription::{BillingCycle, MembershipTier, RetryConfig};

#[test]
fn test_billing_cycle_durations() {
    assert_eq!(BillingCycle::Weekly.duration_seconds(), 7 * 24 * 60 * 60);
    assert_eq!(BillingCycle::Monthly.duration_seconds(), 30 * 24 * 60 * 60);
    assert_eq!(
        BillingCycle::Quarterly.duration_seconds(),
        90 * 24 * 60 * 60
    );
    assert_eq!(
        BillingCycle::Annually.duration_seconds(),
        365 * 24 * 60 * 60
    );
}

#[test]
fn test_membership_tier_ordering() {
    assert!(MembershipTier::Basic < MembershipTier::Standard);
    assert!(MembershipTier::Standard < MembershipTier::Premium);
    assert!(MembershipTier::Premium < MembershipTier::Enterprise);
}

#[test]
fn test_retry_config_default() {
    let c = RetryConfig::default();
    assert_eq!(c.max_retries, 3);
    assert_eq!(c.initial_delay_seconds, 24 * 60 * 60);
    assert_eq!(c.backoff_multiplier, 2);
    assert_eq!(c.grace_period_seconds, 7 * 24 * 60 * 60);
}
