//! Analytics over the treasury ledger: summaries, utilization, breakdowns,
//! trends, forecasts and snapshots.

use guild_treasury::analytics::{compute_trend, SnapshotLog, TreasurySnapshot};
use guild_treasury::management::TreasuryEngine;

const OWNER: u64 = 1;
const SIGNER1: u64 = 2;
const SIGNER2: u64 = 3;
const DEPOSITOR: u64 = 8;
const RECIPIENT: u64 = 9;

fn create_treasury(engine: &mut TreasuryEngine) -> u64 {
    engine
        .initialize_treasury(7, vec![OWNER, SIGNER1, SIGNER2], 2)
        .unwrap()
}

#[test]
fn test_spending_summary_basic() {
    let mut engine = TreasuryEngine::new();
    let treasury_id = create_treasury(&mut engine);

    // two deposits at different timestamps
    engine.deposit(treasury_id, DEPOSITOR, 1000, None, 2000).unwrap();
    engine.deposit(treasury_id, DEPOSITOR, 500, None, 3000).unwrap();

    // query the full period
    let summary = engine.compute_spending_summary(treasury_id, 1500, 3500);
    assert_eq!(summary.treasury_id, treasury_id);
    assert_eq!(summary.total_deposits, 1500);
    assert_eq!(summary.total_withdrawals, 0);
    assert_eq!(summary.net_flow, 1500);
    assert_eq!(summary.tx_count, 2);
    assert_eq!(summary.avg_tx_amount, 750); // (1000 + 500) / 2
}

#[test]
fn test_spending_summary_empty_period() {
    let mut engine = TreasuryEngine::new();
    let treasury_id = create_treasury(&mut engine);

    engine.deposit(treasury_id, DEPOSITOR, 1000, None, 2000).unwrap();

    // query a period that does not contain any transactions
    let summary = engine.compute_spending_summary(treasury_id, 5000, 6000);
    assert_eq!(summary.total_deposits, 0);
    assert_eq!(summary.total_withdrawals, 0);
    assert_eq!(summary.net_flow, 0);
    assert_eq!(summary.tx_count, 0);
    assert_eq!(summary.avg_tx_amount, 0);
}

#[test]
fn test_spending_summary_with_withdrawals() {
    let mut engine = TreasuryEngine::new();
    let treasury_id = create_treasury(&mut engine);

    engine.deposit(treasury_id, DEPOSITOR, 2000, None, 2000).unwrap();

    let tx_id = engine
        .propose_withdrawal(
            treasury_id,
            SIGNER1,
            RECIPIENT,
            500,
            None,
            "test withdrawal".to_owned(),
            3000,
        )
        .unwrap();
    engine.approve_transaction(tx_id, SIGNER2, 3000).unwrap();
    engine.execute_transaction(tx_id, OWNER, 3000).unwrap();

    let summary = engine.compute_spending_summary(treasury_id, 1500, 4000);
    assert_eq!(summary.total_deposits, 2000);
    assert_eq!(summary.total_withdrawals, 500);
    assert_eq!(summary.net_flow, 1500);
    assert_eq!(summary.tx_count, 2); // deposit + withdrawal
}

#[test]
fn test_budget_utilization() {
    let mut engine = TreasuryEngine::new();
    let treasury_id = create_treasury(&mut engine);

    engine
        .set_budget(treasury_id, OWNER, "withdrawal".to_owned(), 1000, 3600, 1000)
        .unwrap();
    engine.deposit(treasury_id, DEPOSITOR, 5000, None, 1000).unwrap();

    // spend 300 of the 1000 budget (= 30%)
    let tx_id = engine
        .propose_withdrawal(treasury_id, SIGNER1, RECIPIENT, 300, None, "test".to_owned(), 1500)
        .unwrap();
    engine.approve_transaction(tx_id, SIGNER2, 1500).unwrap();
    engine.execute_transaction(tx_id, OWNER, 1500).unwrap();

    let utilization = engine.compute_budget_utilization(treasury_id);
    assert_eq!(utilization.len(), 1);

    let bu = &utilization[0];
    assert_eq!(bu.allocated, 1000);
    assert_eq!(bu.spent, 300);
    assert_eq!(bu.remaining, 700);
    assert_eq!(bu.utilization_bps, 3000); // 30% = 3000 bps
}

#[test]
fn test_category_breakdown() {
    let mut engine = TreasuryEngine::new();
    let treasury_id = create_treasury(&mut engine);

    // multiple deposits
    engine.deposit(treasury_id, DEPOSITOR, 1000, None, 2000).unwrap();
    engine.deposit(treasury_id, DEPOSITOR, 500, None, 2500).unwrap();

    let breakdown = engine.compute_category_breakdown(treasury_id, 1500, 3500);

    // one category: deposits
    assert!(breakdown.len() >= 1);
    let deposit_cat = &breakdown[0];
    assert_eq!(deposit_cat.category_name, "Deposit");
    assert_eq!(deposit_cat.total_amount, 1500);
    assert_eq!(deposit_cat.tx_count, 2);
}

#[test]
fn test_spending_trend() {
    let mut engine = TreasuryEngine::new();
    let treasury_id = create_treasury(&mut engine);

    // period 1: deposit 1000; period 2: deposit 2000 (100% increase)
    engine.deposit(treasury_id, DEPOSITOR, 1000, None, 2000).unwrap();
    engine.deposit(treasury_id, DEPOSITOR, 2000, None, 5000).unwrap();

    let period1 = engine.compute_spending_summary(treasury_id, 1500, 3000);
    let period2 = engine.compute_spending_summary(treasury_id, 4000, 6000);
    let trend = compute_trend(&period1, &period2);

    // deposits went from 1000 to 2000 = +100% = +10000 bps
    assert_eq!(trend.deposits_change_bps, 10000);
}

#[test]
fn test_spending_forecast() {
    let mut engine = TreasuryEngine::new();
    let treasury_id = create_treasury(&mut engine);

    // deposits across three consecutive periods of 1000 s
    engine.deposit(treasury_id, DEPOSITOR, 1000, None, 1500).unwrap();
    engine.deposit(treasury_id, DEPOSITOR, 2000, None, 2500).unwrap();
    engine.deposit(treasury_id, DEPOSITOR, 3000, None, 3500).unwrap();

    // forecast from current time 4000, 3 periods of 1000 s each
    let forecast = engine.compute_forecast(treasury_id, 3, 1000, 4000);

    // average deposits = (1000 + 2000 + 3000) / 3 = 2000
    assert_eq!(forecast.projected_deposits, 2000);
    assert_eq!(forecast.projected_withdrawals, 0);
    assert_eq!(forecast.projected_net_flow, 2000);
    assert_eq!(forecast.periods_analyzed, 3);
}

fn snapshot_of(engine: &TreasuryEngine, treasury_id: u64, timestamp: u64, index: u32) -> TreasurySnapshot {
    let t = engine.get_treasury(treasury_id).unwrap();
    TreasurySnapshot {
        treasury_id,
        timestamp,
        balance_xlm: t.balance_xlm,
        total_deposits: t.total_deposits,
        total_withdrawals: t.total_withdrawals,
        snapshot_index: index,
    }
}

#[test]
fn test_treasury_snapshots() {
    let mut engine = TreasuryEngine::new();
    let treasury_id = create_treasury(&mut engine);
    let mut log = SnapshotLog::new();

    // three deposits, a snapshot after each
    engine.deposit(treasury_id, DEPOSITOR, 100, None, 2000).unwrap();
    log.store_snapshot(snapshot_of(&engine, treasury_id, 2000, 0));
    engine.deposit(treasury_id, DEPOSITOR, 200, None, 3000).unwrap();
    log.store_snapshot(snapshot_of(&engine, treasury_id, 3000, 1));
    engine.deposit(treasury_id, DEPOSITOR, 300, None, 4000).unwrap();
    log.store_snapshot(snapshot_of(&engine, treasury_id, 4000, 2));

    let snapshots = log.get_snapshots(10);
    assert_eq!(snapshots.len(), 3);

    // oldest first
    let first = &snapshots[0];
    assert_eq!(first.balance_xlm, 100);
    assert_eq!(first.total_deposits, 100);

    let last = &snapshots[2];
    assert_eq!(last.balance_xlm, 600); // 100 + 200 + 300
    assert_eq!(last.total_deposits, 600);
}

#[test]
fn test_snapshot_limit() {
    let mut engine = TreasuryEngine::new();
    let treasury_id = create_treasury(&mut engine);
    let mut log = SnapshotLog::new();

    // five snapshots
    for i in 0u64..5 {
        engine
            .deposit(treasury_id, DEPOSITOR, 100, None, 2000 + i * 1000)
            .unwrap();
        log.store_snapshot(snapshot_of(&engine, treasury_id, 2000 + i * 1000, i as u32));
    }

    // request only the 2 most recent
    let snapshots = log.get_snapshots(2);
    assert_eq!(snapshots.len(), 2);

    // the last snapshot carries balance 500 (5 * 100)
    let last = &snapshots[1];
    assert_eq!(last.balance_xlm, 500);
}

#[test]
fn test_snapshot_log_eviction_cap() {
    let mut log = SnapshotLog::new();
    for i in 0u32..205 {
        log.store_snapshot(TreasurySnapshot {
            treasury_id: 1,
            timestamp: i as u64,
            balance_xlm: i as i128,
            total_deposits: i as i128,
            total_withdrawals: 0,
            snapshot_index: i,
        });
    }
    // the cap holds and the oldest entries were evicted
    let all = log.get_snapshots(1000);
    assert_eq!(all.len(), 200);
    assert_eq!(all[0].snapshot_index, 5);
    assert_eq!(all[199].snapshot_index, 204);
    assert_eq!(log.get_snapshot_count(), 205);
}
