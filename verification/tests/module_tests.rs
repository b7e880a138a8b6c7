//! Tests of the collaborator-module rules: reputation decay and square
//! roots, payment shares, upgrade codes, governance weights, token
//! allowances.

use guild_treasury::allowance::{AllowanceOperation, TokenAllowance};
use guild_treasury::analytics::pct_change_bps;
use guild_treasury::governance::{GovernanceConfig, Role, role_weight};
use guild_treasury::payment::{
    calculate_recipient_amount, DistributionRule, DistributionStatus, PaymentError, PaymentPool,
    Recipient,
};
use guild_treasury::reputation::{apply_decay_to_profile, integer_sqrt, ReputationProfile};
use guild_treasury::upgrade::{UpgradeStatus, UpgradeType};

#[test]
fn integer_sqrt_values() {
    assert_eq!(integer_sqrt(0), 0);
    assert_eq!(integer_sqrt(1), 1);
    assert_eq!(integer_sqrt(3), 1);
    assert_eq!(integer_sqrt(4), 2);
    assert_eq!(integer_sqrt(99), 9);
    assert_eq!(integer_sqrt(100), 10);
    assert_eq!(integer_sqrt(10_000), 100);
    assert_eq!(integer_sqrt(u32::MAX as u64), 65535);
}

fn profile(decayed_score: u64, last_decay_applied: u64) -> ReputationProfile {
    ReputationProfile {
        address: 1,
        guild_id: 7,
        total_score: decayed_score,
        decayed_score,
        contributions_count: 1,
        last_activity: last_decay_applied,
        last_decay_applied,
    }
}

#[test]
fn test_reputation_decay() {
    // before any decay period elapses the score is untouched
    let mut p = profile(100, 1000);
    apply_decay_to_profile(&mut p, 1000 + 604799);
    assert_eq!(p.decayed_score, 100);

    // after one period (604800 seconds = 1 week): 100 * 99 / 100 = 99
    let mut p = profile(100, 1000);
    apply_decay_to_profile(&mut p, 1000 + 604800);
    assert_eq!(p.decayed_score, 99);
    assert_eq!(p.last_decay_applied, 1000 + 604800);

    // several periods decay but stay within a sane band
    let mut p = profile(100, 1000);
    apply_decay_to_profile(&mut p, 1000 + 604800 * 10);
    assert!(p.decayed_score < 100);
    assert!(p.decayed_score > 80);
}

#[test]
fn recipient_amount_by_rule() {
    let pool = |rule: DistributionRule| PaymentPool {
        id: 1,
        total_amount: 1000,
        token: None,
        status: DistributionStatus::Pending,
        created_by: 1,
        rule,
        created_at: 0,
    };
    let r30 = Recipient { address: 2, share: 30 };

    assert_eq!(
        calculate_recipient_amount(&pool(DistributionRule::Percentage), &r30, 3, None),
        Ok(300)
    );
    assert_eq!(
        calculate_recipient_amount(&pool(DistributionRule::EqualSplit), &r30, 3, None),
        Ok(333)
    );
    assert_eq!(
        calculate_recipient_amount(&pool(DistributionRule::EqualSplit), &r30, 0, None),
        Err(PaymentError::ArithmeticOverflow)
    );
    assert_eq!(
        calculate_recipient_amount(&pool(DistributionRule::Weighted), &r30, 3, Some(60)),
        Ok(500)
    );
    assert_eq!(
        calculate_recipient_amount(&pool(DistributionRule::Weighted), &r30, 3, None),
        Err(PaymentError::ArithmeticOverflow)
    );
    let huge = PaymentPool {
        id: 1,
        total_amount: i128::MAX,
        token: None,
        status: DistributionStatus::Pending,
        created_by: 1,
        rule: DistributionRule::Percentage,
        created_at: 0,
    };
    assert_eq!(
        calculate_recipient_amount(&huge, &r30, 3, None),
        Err(PaymentError::ArithmeticOverflow)
    );
}

#[test]
fn pct_change_values() {
    assert_eq!(pct_change_bps(0, 0), 0);
    assert_eq!(pct_change_bps(0, 50), 10000);
    assert_eq!(pct_change_bps(1000, 2000), 10000);
    assert_eq!(pct_change_bps(1000, 500), -5000);
    assert_eq!(pct_change_bps(200, 250), 2500);
}

#[test]
fn upgrade_codes_round_trip() {
    let statuses = [
        UpgradeStatus::Pending,
        UpgradeStatus::Approved,
        UpgradeStatus::ReadyToExecute,
        UpgradeStatus::Executed,
        UpgradeStatus::RolledBack,
        UpgradeStatus::Failed,
    ];
    for s in statuses {
        assert_eq!(UpgradeStatus::from_u32(s.to_u32()), s);
    }
    assert_eq!(UpgradeStatus::from_u32(77), UpgradeStatus::Pending);

    let types = [
        UpgradeType::CodeOnly,
        UpgradeType::WithMigration,
        UpgradeType::Emergency,
        UpgradeType::SecurityFix,
    ];
    for t in types {
        assert_eq!(UpgradeType::from_u32(t.to_u32()), t);
    }
    assert_eq!(UpgradeType::from_u32(9), UpgradeType::CodeOnly);
}

#[test]
fn governance_defaults_and_weights() {
    let c = GovernanceConfig::default();
    assert_eq!(c.quorum_percentage, 30);
    assert_eq!(c.approval_threshold, 60);
    assert_eq!(c.voting_period_days, 7);
    assert_eq!(c.min_proposer_reputation, 0);

    assert_eq!(role_weight(&Role::Owner), 10);
    assert_eq!(role_weight(&Role::Admin), 5);
    assert_eq!(role_weight(&Role::Member), 2);
    assert_eq!(role_weight(&Role::Contributor), 1);
}

#[test]
fn token_allowance_rules() {
    let a = TokenAllowance {
        owner: 1,
        spender: 2,
        token: None,
        amount: 100,
        spent: 40,
        expires_at: 5000,
        operation: AllowanceOperation::Withdrawal,
        created_at: 100,
    };
    assert_eq!(a.remaining(), 60);
    assert!(!a.is_expired(4999));
    assert!(a.is_expired(5000));
    assert!(a.permits_operation(&AllowanceOperation::Withdrawal));
    assert!(!a.permits_operation(&AllowanceOperation::Escrow));

    let never_expires = TokenAllowance { expires_at: 0, ..a };
    assert!(!never_expires.is_expired(u64::MAX));

    let any = TokenAllowance { operation: AllowanceOperation::Any, ..a };
    assert!(any.permits_operation(&AllowanceOperation::Escrow));

    let overspent = TokenAllowance { spent: 150, ..a };
    assert_eq!(overspent.remaining(), -50);
}
