use bazaar_agent::detect::has_changed;
use bazaar_agent::driver::{Decision, Driver};
use bazaar_agent::model::{FetchError, Item, MarketSnapshot, PricePoint, QuickStatus};
use bazaar_agent::project::{project, project_item};

fn point(quantity: i64, unit_price: f64, order_count: i32) -> PricePoint {
    PricePoint {
        quantity,
        unit_price_bits: unit_price.to_bits(),
        order_count,
    }
}

fn status(item_id: &str) -> QuickStatus {
    QuickStatus {
        item_id: item_id.to_string(),
        sell_price_bits: (1.5f64).to_bits(),
        sell_volume: 100,
        sell_weekly_moved: 700,
        sell_order_count: 4,
        buy_price_bits: (1.2f64).to_bits(),
        buy_volume: 90,
        buy_weekly_moved: 600,
        buy_order_count: 3,
    }
}

fn item(id: &str, sell: Vec<PricePoint>, buy: Vec<PricePoint>) -> Item {
    Item {
        id: id.to_string(),
        sell_history: sell,
        buy_history: buy,
        status: status(id),
    }
}

#[test]
fn first_snapshot_counts_as_changed() {
    assert!(has_changed(100, None));
}

#[test]
fn repeated_token_counts_as_unchanged() {
    assert!(!has_changed(100, Some(100)));
}

#[test]
fn different_token_counts_as_changed() {
    assert!(has_changed(101, Some(100)));
    assert!(has_changed(99, Some(100)));
}

#[test]
fn item_with_no_history_yields_no_record() {
    let it = item("BARE", vec![], vec![]);
    assert!(project_item(&it, 42).is_none());
}

#[test]
fn item_with_any_history_yields_one_record() {
    let it = item("A", vec![point(10, 1.5, 2)], vec![]);
    let record = project_item(&it, 42).expect("one record");
    assert_eq!(record.item_id, "A");
    assert_eq!(record.sell_summary.len(), 1);
    assert!(record.buy_summary.is_empty());
    assert_eq!(record.observed_at, 42);
}

#[test]
fn short_history_is_kept_whole() {
    let sell = vec![point(1, 1.0, 1), point(2, 2.0, 2)];
    let it = item("A", sell.clone(), vec![]);
    let record = project_item(&it, 7).expect("one record");
    assert_eq!(record.sell_summary, sell);
}

#[test]
fn long_history_is_cut_to_first_three() {
    let sell = vec![
        point(1, 1.0, 1),
        point(2, 2.0, 2),
        point(3, 3.0, 3),
        point(4, 4.0, 4),
        point(5, 5.0, 5),
    ];
    let it = item("A", sell.clone(), vec![]);
    let record = project_item(&it, 7).expect("one record");
    assert_eq!(record.sell_summary, sell[..3].to_vec());
}

#[test]
fn status_is_copied_verbatim() {
    let it = item("A", vec![point(1, 9.75, 1)], vec![]);
    let record = project_item(&it, 7).expect("one record");
    assert_eq!(record.status.item_id, "A");
    assert_eq!(record.status.sell_price_bits, (1.5f64).to_bits());
    assert_eq!(record.status.buy_volume, 90);
    assert_eq!(record.status.buy_order_count, 3);
}

#[test]
fn projection_keeps_item_order_and_shares_timestamp() {
    let items = vec![
        item("A", vec![point(1, 1.0, 1)], vec![]),
        item("EMPTY", vec![], vec![]),
        item("B", vec![], vec![point(2, 2.0, 2)]),
    ];
    let records = project(&items, 55);
    assert_eq!(records.len(), 2);
    assert_eq!(records[0].item_id, "A");
    assert_eq!(records[1].item_id, "B");
    assert!(records.iter().all(|r| r.observed_at == 55));
}

#[test]
fn fresh_snapshot_is_persisted() {
    let driver = Driver::new();
    let snapshot = MarketSnapshot {
        is_valid: true,
        version_token: 100,
        items: vec![item("A", vec![point(10, 1.5, 2)], vec![])],
    };
    match driver.plan_at(&Ok(snapshot), 9000) {
        Decision::Persist(records, token) => {
            assert_eq!(token, 100);
            assert_eq!(records.len(), 1);
            assert_eq!(records[0].item_id, "A");
            assert_eq!(records[0].sell_summary.len(), 1);
            assert_eq!(records[0].sell_summary[0].quantity, 10);
            assert_eq!(records[0].sell_summary[0].unit_price_bits, (1.5f64).to_bits());
            assert_eq!(records[0].sell_summary[0].order_count, 2);
            assert!(records[0].buy_summary.is_empty());
            assert_eq!(records[0].observed_at, 9000);
        }
        other => panic!("expected a persist decision, got {:?}", other),
    }
}

#[test]
fn second_poll_with_same_token_writes_nothing() {
    let mut driver = Driver::new();
    driver.commit(100);
    assert_eq!(driver.committed_cycles(), 1);
    let snapshot = MarketSnapshot {
        is_valid: true,
        version_token: 100,
        items: vec![item("A", vec![point(10, 1.5, 2)], vec![])],
    };
    let decision = driver.plan_at(&Ok(snapshot), 9005);
    assert!(matches!(decision, Decision::UpToDate));
    assert_eq!(driver.committed_cycles(), 1);
}

#[test]
fn failed_fetch_is_fatal_and_persists_nothing() {
    let driver = Driver::new();
    let decision = driver.plan_at(&Err(FetchError::Decode), 9000);
    assert!(matches!(decision, Decision::Fatal(FetchError::Decode)));
    let decision = driver.plan_at(&Err(FetchError::Transport), 9000);
    assert!(matches!(decision, Decision::Fatal(FetchError::Transport)));
}

#[test]
fn plan_stamps_records_with_its_own_clock_reading() {
    let driver = Driver::new();
    let snapshot = MarketSnapshot {
        is_valid: true,
        version_token: 7,
        items: vec![item("A", vec![point(1, 1.0, 1)], vec![])],
    };
    let (decision, observed_at) = driver.plan(&Ok(snapshot));
    match decision {
        Decision::Persist(records, token) => {
            assert_eq!(token, 7);
            assert_eq!(records[0].observed_at, observed_at);
        }
        other => panic!("expected a persist decision, got {:?}", other),
    }
}

#[test]
fn counter_grows_once_per_committed_cycle() {
    let mut driver = Driver::new();
    driver.commit(1);
    driver.commit(2);
    driver.commit(3);
    assert_eq!(driver.committed_cycles(), 3);
    assert_eq!(driver.last_seen(), Some(3));
}
