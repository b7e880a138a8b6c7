//! End-to-end scenarios of the treasury engine: the M-of-N withdrawal
//! protocol, budgets, pause, and lazy expiry.

use guild_treasury::management::TreasuryEngine;
use guild_treasury::types::{TransactionStatus, TransactionType, TreasuryError};

const OWNER: u64 = 1;
const SIGNER1: u64 = 2;
const SIGNER2: u64 = 3;
const RECIPIENT: u64 = 9;

fn create_treasury(engine: &mut TreasuryEngine) -> u64 {
    engine
        .initialize_treasury(7, vec![OWNER, SIGNER1, SIGNER2], 2)
        .unwrap()
}

#[test]
fn test_treasury_initialize_and_deposit_accounting() {
    let mut engine = TreasuryEngine::new();
    let treasury_id = create_treasury(&mut engine);

    let depositor = OWNER;
    let amount: i128 = 500;

    let ok = engine.deposit(treasury_id, depositor, amount, None, 1000).unwrap();
    assert!(ok);

    let bal = engine.get_balance(treasury_id, None).unwrap();
    assert_eq!(bal, amount);

    let history = engine.get_transaction_history(treasury_id, 10);
    assert_eq!(history.len(), 1);
    let tx = &history[0];
    assert_eq!(tx.tx_type, TransactionType::Deposit);
    assert_eq!(tx.amount, amount);
    assert_eq!(tx.status, TransactionStatus::Executed);
}

#[test]
fn test_multisig_withdrawal_flow() {
    let mut engine = TreasuryEngine::new();
    let treasury_id = create_treasury(&mut engine);

    // deposit some native-asset accounting
    let amount: i128 = 2000;
    engine.deposit(treasury_id, OWNER, amount, None, 1000).unwrap();

    // create withdrawal proposal
    let tx_id = engine
        .propose_withdrawal(treasury_id, SIGNER1, RECIPIENT, 1500, None, "payout".to_owned(), 1000)
        .unwrap();

    // second signer approves
    engine.approve_transaction(tx_id, SIGNER2, 1000).unwrap();

    // executor (owner) executes
    engine.execute_transaction(tx_id, OWNER, 1000).unwrap();

    let bal = engine.get_balance(treasury_id, None).unwrap();
    assert_eq!(bal, 500);

    let history = engine.get_transaction_history(treasury_id, 10);
    assert_eq!(history.len(), 2); // 1 deposit + 1 withdrawal (proposed then executed)
}

#[test]
fn test_budget_enforcement() {
    let mut engine = TreasuryEngine::new();
    let treasury_id = create_treasury(&mut engine);

    engine.deposit(treasury_id, OWNER, 5000, None, 1000).unwrap();

    // set a small budget for withdrawals
    engine
        .set_budget(treasury_id, OWNER, "withdrawal".to_owned(), 1000, 3600, 1000)
        .unwrap();

    // first withdrawal within budget
    let tx1 = engine
        .propose_withdrawal(treasury_id, SIGNER1, RECIPIENT, 800, None, "first".to_owned(), 1000)
        .unwrap();
    engine.approve_transaction(tx1, SIGNER2, 1000).unwrap();
    engine.execute_transaction(tx1, OWNER, 1000).unwrap();

    // second withdrawal exceeding the remaining budget must fail
    let tx2 = engine
        .propose_withdrawal(treasury_id, SIGNER1, RECIPIENT, 500, None, "second".to_owned(), 1000)
        .unwrap();
    engine.approve_transaction(tx2, SIGNER2, 1000).unwrap();
    let r = engine.execute_transaction(tx2, OWNER, 1000);
    assert_eq!(r, Err(TreasuryError::BudgetExceeded));
}

#[test]
fn test_emergency_pause_blocks_new_ops() {
    let mut engine = TreasuryEngine::new();
    let treasury_id = create_treasury(&mut engine);

    engine.deposit(treasury_id, OWNER, 1000, None, 1000).unwrap();

    // pause
    engine.emergency_pause(treasury_id, SIGNER1, true).unwrap();

    let r = engine.propose_withdrawal(
        treasury_id,
        SIGNER1,
        RECIPIENT,
        100,
        None,
        "after pause".to_owned(),
        1000,
    );
    assert_eq!(r, Err(TreasuryError::Paused));
}

#[test]
fn scenario_high_value_needs_full_threshold() {
    // threshold 2 of 3 signers, high-value threshold 1000: a withdrawal of
    // 1500 stays pending with one approval, becomes approved on the second,
    // and execution debits the balance.
    let mut engine = TreasuryEngine::new();
    let treasury_id = create_treasury(&mut engine);
    engine.deposit(treasury_id, OWNER, 2000, None, 1000).unwrap();

    let tx_id = engine
        .propose_withdrawal(treasury_id, SIGNER1, RECIPIENT, 1500, None, "hv".to_owned(), 1000)
        .unwrap();
    {
        let tx = engine.get_transaction(tx_id).unwrap();
        assert_eq!(tx.status, TransactionStatus::Pending);
        assert_eq!(tx.approvals.len(), 1);
    }

    engine.approve_transaction(tx_id, SIGNER2, 1100).unwrap();
    assert_eq!(
        engine.get_transaction(tx_id).unwrap().status,
        TransactionStatus::Approved
    );

    engine.execute_transaction(tx_id, OWNER, 1200).unwrap();
    assert_eq!(engine.get_balance(treasury_id, None).unwrap(), 500);
    assert_eq!(
        engine.get_transaction(tx_id).unwrap().status,
        TransactionStatus::Executed
    );
}

#[test]
fn scenario_low_value_approved_immediately() {
    // a withdrawal of 100 (below the high-value threshold of 1000) needs one
    // approval, so the proposer's implicit approval settles it: any signer
    // can execute without further approvals.
    let mut engine = TreasuryEngine::new();
    let treasury_id = create_treasury(&mut engine);
    engine.deposit(treasury_id, OWNER, 2000, None, 1000).unwrap();

    let tx_id = engine
        .propose_withdrawal(treasury_id, SIGNER1, RECIPIENT, 100, None, "lv".to_owned(), 1000)
        .unwrap();
    assert_eq!(
        engine.get_transaction(tx_id).unwrap().status,
        TransactionStatus::Approved
    );

    engine.execute_transaction(tx_id, SIGNER2, 1100).unwrap();
    assert_eq!(engine.get_balance(treasury_id, None).unwrap(), 1900);
}

#[test]
fn scenario_budget_resets_after_period() {
    // budget "withdrawal" of 1000 per 3600 s: an 800 withdrawal succeeds, a
    // further 500 in the same period fails, and succeeds again once the
    // period has elapsed.
    let mut engine = TreasuryEngine::new();
    let treasury_id = create_treasury(&mut engine);
    engine.deposit(treasury_id, OWNER, 5000, None, 1000).unwrap();
    engine
        .set_budget(treasury_id, OWNER, "withdrawal".to_owned(), 1000, 3600, 1000)
        .unwrap();

    let tx1 = engine
        .propose_withdrawal(treasury_id, SIGNER1, RECIPIENT, 800, None, "a".to_owned(), 1000)
        .unwrap();
    engine.approve_transaction(tx1, SIGNER2, 1000).unwrap();
    engine.execute_transaction(tx1, OWNER, 1000).unwrap();

    let tx2 = engine
        .propose_withdrawal(treasury_id, SIGNER1, RECIPIENT, 500, None, "b".to_owned(), 1100)
        .unwrap();
    engine.approve_transaction(tx2, SIGNER2, 1100).unwrap();
    assert_eq!(
        engine.execute_transaction(tx2, OWNER, 1100),
        Err(TreasuryError::BudgetExceeded)
    );

    // after the period elapses the same withdrawal goes through
    engine.execute_transaction(tx2, OWNER, 1000 + 3600).unwrap();
    assert_eq!(engine.get_balance(treasury_id, None).unwrap(), 5000 - 800 - 500);
}

#[test]
fn scenario_pause_allows_already_approved_execution() {
    // pausing blocks new proposals, but a transaction that was already
    // approved still settles while paused.
    let mut engine = TreasuryEngine::new();
    let treasury_id = create_treasury(&mut engine);
    engine.deposit(treasury_id, OWNER, 2000, None, 1000).unwrap();

    let tx_id = engine
        .propose_withdrawal(treasury_id, SIGNER1, RECIPIENT, 1500, None, "hv".to_owned(), 1000)
        .unwrap();
    engine.approve_transaction(tx_id, SIGNER2, 1000).unwrap();

    engine.emergency_pause(treasury_id, OWNER, true).unwrap();

    assert_eq!(
        engine.propose_withdrawal(
            treasury_id,
            SIGNER1,
            RECIPIENT,
            100,
            None,
            "blocked".to_owned(),
            1100,
        ),
        Err(TreasuryError::Paused)
    );

    engine.execute_transaction(tx_id, OWNER, 1100).unwrap();
    assert_eq!(engine.get_balance(treasury_id, None).unwrap(), 500);
}

#[test]
fn scenario_expired_proposal_cannot_be_approved() {
    // once `expires_at` passes, the first call that touches the proposal
    // marks it expired and fails.
    let mut engine = TreasuryEngine::new();
    let treasury_id = create_treasury(&mut engine);
    engine.deposit(treasury_id, OWNER, 2000, None, 1000).unwrap();

    let tx_id = engine
        .propose_withdrawal(treasury_id, SIGNER1, RECIPIENT, 1500, None, "exp".to_owned(), 1000)
        .unwrap();
    let expires_at = engine.get_transaction(tx_id).unwrap().expires_at;
    assert_eq!(expires_at, 1000 + 604800);

    let r = engine.approve_transaction(tx_id, SIGNER2, expires_at);
    assert_eq!(r, Err(TreasuryError::Expired));
    assert_eq!(
        engine.get_transaction(tx_id).unwrap().status,
        TransactionStatus::Expired
    );

    // and it can never be executed either
    assert_eq!(
        engine.execute_transaction(tx_id, OWNER, expires_at + 1),
        Err(TreasuryError::Expired)
    );
}
