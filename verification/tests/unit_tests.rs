//! Unit tests of the treasury rules, error taxonomy, token accounting,
//! allowances, milestone payments and history queries.

use guild_treasury::management::TreasuryEngine;
use guild_treasury::multisig::{
    expire_if_needed, is_expired, required_approvals_for_tx, validate_threshold,
    TX_EXPIRY_SECONDS,
};
use guild_treasury::types::{
    Transaction, TransactionStatus, TransactionType, Treasury, TreasuryError,
};

const OWNER: u64 = 1;
const SIGNER1: u64 = 2;
const SIGNER2: u64 = 3;
const OUTSIDER: u64 = 4;
const RECIPIENT: u64 = 9;
const TOKEN: u64 = 55;

fn create_treasury(engine: &mut TreasuryEngine) -> u64 {
    engine
        .initialize_treasury(7, vec![OWNER, SIGNER1, SIGNER2], 2)
        .unwrap()
}

#[test]
fn threshold_validation_rules() {
    assert!(!validate_threshold(0, 1)); // no signers
    assert!(!validate_threshold(3, 0)); // zero threshold
    assert!(!validate_threshold(3, 4)); // above the signer count
    assert!(!validate_threshold(3, 1)); // below half
    assert!(validate_threshold(3, 2)); // ceil(3/2)
    assert!(validate_threshold(3, 3));
    assert!(validate_threshold(1, 1));
    assert!(validate_threshold(4, 2)); // exactly half of an even count
    assert!(!validate_threshold(5, 2));
}

fn sample_treasury() -> Treasury {
    Treasury {
        id: 1,
        guild_id: 7,
        owner: OWNER,
        signers: vec![OWNER, SIGNER1, SIGNER2],
        approval_threshold: 2,
        high_value_threshold: 1000,
        balance_xlm: 0,
        token_balances: vec![],
        total_deposits: 0,
        total_withdrawals: 0,
        paused: false,
    }
}

fn sample_tx(tx_type: TransactionType, amount: i128) -> Transaction {
    Transaction {
        id: 1,
        treasury_id: 1,
        tx_type,
        amount,
        token: None,
        recipient: Some(RECIPIENT),
        proposer: SIGNER1,
        approvals: vec![SIGNER1],
        status: TransactionStatus::Pending,
        created_at: 1000,
        expires_at: 1000 + TX_EXPIRY_SECONDS,
        reason: "r".to_owned(),
    }
}

#[test]
fn required_approvals_rule() {
    let t = sample_treasury();
    // value-moving types follow the high-value tiering
    assert_eq!(
        required_approvals_for_tx(&t, &sample_tx(TransactionType::Withdrawal, 1500)),
        2
    );
    assert_eq!(
        required_approvals_for_tx(&t, &sample_tx(TransactionType::Withdrawal, 1000)),
        2
    );
    assert_eq!(
        required_approvals_for_tx(&t, &sample_tx(TransactionType::Withdrawal, 999)),
        1
    );
    assert_eq!(
        required_approvals_for_tx(&t, &sample_tx(TransactionType::BountyFunding, 2000)),
        2
    );
    assert_eq!(
        required_approvals_for_tx(&t, &sample_tx(TransactionType::MilestonePayment, 50)),
        1
    );
    // everything else needs exactly one approval
    assert_eq!(
        required_approvals_for_tx(&t, &sample_tx(TransactionType::Deposit, 5000)),
        1
    );
    assert_eq!(
        required_approvals_for_tx(&t, &sample_tx(TransactionType::AllowanceGrant, 5000)),
        1
    );
}

#[test]
fn lazy_expiry_helpers() {
    let tx = sample_tx(TransactionType::Withdrawal, 100);
    assert!(!is_expired(&tx, tx.expires_at - 1));
    assert!(is_expired(&tx, tx.expires_at));

    // a live transaction past its deadline is marked expired
    let mut live = sample_tx(TransactionType::Withdrawal, 100);
    let deadline = live.expires_at;
    expire_if_needed(&mut live, deadline);
    assert_eq!(live.status, TransactionStatus::Expired);

    // one before its deadline is untouched
    let mut fresh = sample_tx(TransactionType::Withdrawal, 100);
    expire_if_needed(&mut fresh, deadline - 1);
    assert_eq!(fresh.status, TransactionStatus::Pending);

    // a terminal one is never rewritten
    let mut done = sample_tx(TransactionType::Withdrawal, 100);
    done.status = TransactionStatus::Executed;
    expire_if_needed(&mut done, deadline + 5);
    assert_eq!(done.status, TransactionStatus::Executed);
}

#[test]
fn initialize_rejects_bad_threshold_and_dedups_signers() {
    let mut engine = TreasuryEngine::new();
    assert_eq!(
        engine.initialize_treasury(7, vec![], 1),
        Err(TreasuryError::InvalidThreshold)
    );
    assert_eq!(
        engine.initialize_treasury(7, vec![OWNER, SIGNER1, SIGNER2], 1),
        Err(TreasuryError::InvalidThreshold)
    );
    // duplicates are removed before the threshold is validated
    let tid = engine
        .initialize_treasury(7, vec![OWNER, SIGNER1, OWNER, SIGNER1], 2)
        .unwrap();
    assert_eq!(tid, 1);
    let t = engine.get_treasury(tid).unwrap();
    assert_eq!(t.signers, vec![OWNER, SIGNER1]);
    assert_eq!(t.owner, OWNER);
    assert_eq!(t.high_value_threshold, 1000);
    assert!(!t.paused);

    // identifiers are monotonic
    let tid2 = engine.initialize_treasury(8, vec![SIGNER2], 1).unwrap();
    assert_eq!(tid2, 2);
}

#[test]
fn deposit_error_cases() {
    let mut engine = TreasuryEngine::new();
    let tid = create_treasury(&mut engine);
    assert_eq!(
        engine.deposit(tid, OWNER, 0, None, 1000),
        Err(TreasuryError::InvalidAmount)
    );
    assert_eq!(
        engine.deposit(tid, OWNER, -5, None, 1000),
        Err(TreasuryError::InvalidAmount)
    );
    assert_eq!(
        engine.deposit(99, OWNER, 10, None, 1000),
        Err(TreasuryError::NotFound)
    );
    engine.emergency_pause(tid, OWNER, true).unwrap();
    assert_eq!(
        engine.deposit(tid, OWNER, 10, None, 1000),
        Err(TreasuryError::Paused)
    );
}

#[test]
fn token_deposit_and_withdrawal_accounting() {
    let mut engine = TreasuryEngine::new();
    let tid = create_treasury(&mut engine);

    engine.deposit(tid, OWNER, 700, Some(TOKEN), 1000).unwrap();
    engine.deposit(tid, OWNER, 300, Some(TOKEN), 1100).unwrap();
    assert_eq!(engine.get_balance(tid, Some(TOKEN)).unwrap(), 1000);
    assert_eq!(engine.get_balance(tid, None).unwrap(), 0);
    assert_eq!(engine.get_balance(tid, Some(77)).unwrap(), 0);

    let tx = engine
        .propose_withdrawal(tid, SIGNER1, RECIPIENT, 400, Some(TOKEN), "t".to_owned(), 1200)
        .unwrap();
    engine.execute_transaction(tx, SIGNER1, 1200).unwrap();
    assert_eq!(engine.get_balance(tid, Some(TOKEN)).unwrap(), 600);

    let t = engine.get_treasury(tid).unwrap();
    assert_eq!(t.total_deposits, 1000);
    assert_eq!(t.total_withdrawals, 400);
}

#[test]
fn insufficient_balance_is_rejected() {
    let mut engine = TreasuryEngine::new();
    let tid = create_treasury(&mut engine);
    engine.deposit(tid, OWNER, 100, None, 1000).unwrap();

    let tx = engine
        .propose_withdrawal(tid, SIGNER1, RECIPIENT, 101, None, "x".to_owned(), 1000)
        .unwrap();
    assert_eq!(
        engine.execute_transaction(tx, SIGNER1, 1000),
        Err(TreasuryError::InsufficientBalance)
    );
    // the failed call changed nothing
    assert_eq!(engine.get_balance(tid, None).unwrap(), 100);
    assert_eq!(
        engine.get_transaction(tx).unwrap().status,
        TransactionStatus::Approved
    );
}

#[test]
fn approval_rules() {
    let mut engine = TreasuryEngine::new();
    let tid = create_treasury(&mut engine);
    engine.deposit(tid, OWNER, 5000, None, 1000).unwrap();

    let tx = engine
        .propose_withdrawal(tid, SIGNER1, RECIPIENT, 1500, None, "x".to_owned(), 1000)
        .unwrap();

    assert_eq!(
        engine.approve_transaction(999, SIGNER2, 1000),
        Err(TreasuryError::NotFound)
    );
    assert_eq!(
        engine.approve_transaction(tx, OUTSIDER, 1000),
        Err(TreasuryError::NotSigner)
    );
    assert_eq!(
        engine.approve_transaction(tx, SIGNER1, 1000),
        Err(TreasuryError::DuplicateApproval)
    );
    // executing while still pending fails
    assert_eq!(
        engine.execute_transaction(tx, OWNER, 1000),
        Err(TreasuryError::NotExecutable)
    );

    engine.approve_transaction(tx, SIGNER2, 1000).unwrap();
    assert_eq!(
        engine.get_transaction(tx).unwrap().approvals,
        vec![SIGNER1, SIGNER2]
    );

    // a settled deposit transaction can be neither approved nor executed
    engine.deposit(tid, OWNER, 10, None, 1000).unwrap();
    let dep_tx_id = 3; // first deposit, withdrawal, then this deposit
    assert_eq!(
        engine.get_transaction(dep_tx_id).unwrap().tx_type,
        TransactionType::Deposit
    );
    assert_eq!(
        engine.approve_transaction(dep_tx_id, SIGNER2, 1000),
        Err(TreasuryError::NotApprovable)
    );
    assert_eq!(
        engine.execute_transaction(dep_tx_id, SIGNER2, 1000),
        Err(TreasuryError::NotExecutable)
    );

    // executing twice fails: the transaction is terminal
    engine.execute_transaction(tx, OWNER, 1000).unwrap();
    assert_eq!(
        engine.execute_transaction(tx, OWNER, 1000),
        Err(TreasuryError::NotExecutable)
    );
}

#[test]
fn pause_requires_signer() {
    let mut engine = TreasuryEngine::new();
    let tid = create_treasury(&mut engine);
    assert_eq!(
        engine.emergency_pause(tid, OUTSIDER, true),
        Err(TreasuryError::NotSigner)
    );
    assert_eq!(
        engine.emergency_pause(99, OWNER, true),
        Err(TreasuryError::NotFound)
    );
    engine.emergency_pause(tid, OWNER, true).unwrap();
    assert!(engine.get_treasury(tid).unwrap().paused);
    engine.emergency_pause(tid, SIGNER2, false).unwrap();
    assert!(!engine.get_treasury(tid).unwrap().paused);
}

#[test]
fn allowance_grant_and_enforcement() {
    let mut engine = TreasuryEngine::new();
    let tid = create_treasury(&mut engine);
    engine.deposit(tid, OWNER, 10000, None, 1000).unwrap();

    // only the owner can grant, and only to signers
    assert_eq!(
        engine.grant_allowance(tid, SIGNER1, SIGNER2, 500, None, 3600, 1000),
        Err(TreasuryError::Unauthorized)
    );
    assert_eq!(
        engine.grant_allowance(tid, OWNER, OUTSIDER, 500, None, 3600, 1000),
        Err(TreasuryError::NotSigner)
    );
    engine
        .grant_allowance(tid, OWNER, SIGNER2, 500, None, 3600, 1000)
        .unwrap();

    // the executor's allowance caps what they can settle
    let tx1 = engine
        .propose_withdrawal(tid, SIGNER1, RECIPIENT, 400, None, "a".to_owned(), 1000)
        .unwrap();
    engine.execute_transaction(tx1, SIGNER2, 1000).unwrap();

    let tx2 = engine
        .propose_withdrawal(tid, SIGNER1, RECIPIENT, 200, None, "b".to_owned(), 1100)
        .unwrap();
    assert_eq!(
        engine.execute_transaction(tx2, SIGNER2, 1100),
        Err(TreasuryError::AllowanceExceeded)
    );

    // an executor without an allowance row is unconstrained
    engine.execute_transaction(tx2, SIGNER1, 1100).unwrap();

    // after the period elapses, the allowance resets to the full grant
    let tx3 = engine
        .propose_withdrawal(tid, SIGNER1, RECIPIENT, 450, None, "c".to_owned(), 1200)
        .unwrap();
    engine.execute_transaction(tx3, SIGNER2, 1000 + 3600).unwrap();
    assert_eq!(engine.get_balance(tid, None).unwrap(), 10000 - 400 - 200 - 450);
}

#[test]
fn milestone_payment_bypasses_approval_but_not_budget() {
    let mut engine = TreasuryEngine::new();
    let tid = create_treasury(&mut engine);
    engine.deposit(tid, OWNER, 2000, None, 1000).unwrap();
    engine
        .set_budget(tid, OWNER, "milestone".to_owned(), 600, 3600, 1000)
        .unwrap();

    assert_eq!(
        engine.execute_milestone_payment(tid, None, RECIPIENT, 0, OWNER, 1000),
        Err(TreasuryError::InvalidAmount)
    );
    engine
        .execute_milestone_payment(tid, None, RECIPIENT, 500, OWNER, 1100)
        .unwrap();
    assert_eq!(engine.get_balance(tid, None).unwrap(), 1500);

    // the milestone budget is enforced
    assert_eq!(
        engine.execute_milestone_payment(tid, None, RECIPIENT, 200, OWNER, 1200),
        Err(TreasuryError::BudgetExceeded)
    );

    // a synthetic settled transaction was recorded
    let history = engine.get_transaction_history(tid, 10);
    let last = &history[history.len() - 1];
    assert_eq!(last.tx_type, TransactionType::MilestonePayment);
    assert_eq!(last.status, TransactionStatus::Executed);
    assert_eq!(last.amount, 500);
    assert_eq!(last.recipient, Some(RECIPIENT));

    // pause blocks milestone payments outright
    engine.emergency_pause(tid, OWNER, true).unwrap();
    assert_eq!(
        engine.execute_milestone_payment(tid, None, RECIPIENT, 100, OWNER, 1300),
        Err(TreasuryError::Paused)
    );
}

#[test]
fn history_returns_most_recent_in_order() {
    let mut engine = TreasuryEngine::new();
    let tid = create_treasury(&mut engine);
    let other = engine.initialize_treasury(8, vec![OWNER], 1).unwrap();

    for i in 0..5 {
        engine.deposit(tid, OWNER, 100 + i, None, 1000 + i as u64).unwrap();
    }
    engine.deposit(other, OWNER, 999, None, 1500).unwrap();

    let all = engine.get_transaction_history(tid, 10);
    assert_eq!(all.len(), 5);
    assert_eq!(all[0].amount, 100);
    assert_eq!(all[4].amount, 104);

    let last_two = engine.get_transaction_history(tid, 2);
    assert_eq!(last_two.len(), 2);
    assert_eq!(last_two[0].amount, 103);
    assert_eq!(last_two[1].amount, 104);

    // an unknown treasury has an empty history
    assert_eq!(engine.get_transaction_history(42, 10).len(), 0);
}

#[test]
fn funds_are_conserved_across_operations() {
    // held balances plus lifetime withdrawals always equal lifetime deposits
    let mut engine = TreasuryEngine::new();
    let tid = create_treasury(&mut engine);
    engine.deposit(tid, OWNER, 1000, None, 1000).unwrap();
    engine.deposit(tid, OWNER, 700, Some(TOKEN), 1100).unwrap();
    let tx = engine
        .propose_withdrawal(tid, SIGNER1, RECIPIENT, 300, None, "w".to_owned(), 1200)
        .unwrap();
    engine.execute_transaction(tx, SIGNER2, 1200).unwrap();
    engine
        .execute_milestone_payment(tid, Some(TOKEN), RECIPIENT, 250, OWNER, 1300)
        .unwrap();

    let t = engine.get_treasury(tid).unwrap();
    let token_sum: i128 = t.token_balances.iter().map(|tb| tb.amount).sum();
    assert_eq!(t.balance_xlm + token_sum + t.total_withdrawals, t.total_deposits);
    assert_eq!(t.balance_xlm, 700);
    assert_eq!(token_sum, 450);
    assert_eq!(t.total_withdrawals, 550);
    assert_eq!(t.total_deposits, 1700);
}

#[test]
fn set_budget_requires_signer_and_updates_row() {
    let mut engine = TreasuryEngine::new();
    let tid = create_treasury(&mut engine);
    assert_eq!(
        engine.set_budget(tid, OUTSIDER, "withdrawal".to_owned(), 10, 60, 1000),
        Err(TreasuryError::NotSigner)
    );
    assert_eq!(
        engine.set_budget(99, OWNER, "withdrawal".to_owned(), 10, 60, 1000),
        Err(TreasuryError::NotFound)
    );
    engine
        .set_budget(tid, OWNER, "withdrawal".to_owned(), 10, 60, 1000)
        .unwrap();
    // replacing the row keeps one entry per (treasury, category)
    engine
        .set_budget(tid, OWNER, "withdrawal".to_owned(), 20, 60, 1001)
        .unwrap();
    let utilization = engine.compute_budget_utilization(tid);
    assert_eq!(utilization.len(), 1);
    assert_eq!(utilization[0].allocated, 20);
}
