//! Behaviour of the aggregation stage on concrete runs: threshold flushes,
//! timer flushes, category independence and ordering.

use transactions_pipeline::messages::BatchMessage;
use transactions_pipeline::model::{Transaction, TransactionType};
use transactions_pipeline::state::Aggregator;

fn tx(id: u64, t: TransactionType) -> Transaction {
    Transaction { id, user_id: id + 1000, amount: 50, transaction_type: t }
}

fn ids(batch: &BatchMessage) -> Vec<u64> {
    batch.batch_data.iter().map(|e| e.id).collect()
}

#[test]
fn below_threshold_nothing_then_timer_flushes_all() {
    let mut agg = Aggregator::with_threshold(10);
    for i in 1..=7u64 {
        assert!(agg.ingest(tx(i, TransactionType::Bet)).is_none());
    }
    let batches = agg.on_timer_tick();
    assert_eq!(batches.len(), 1);
    assert_eq!(batches[0].data_type, TransactionType::Bet);
    assert_eq!(ids(&batches[0]), vec![1, 2, 3, 4, 5, 6, 7]);
    // the cache is empty afterwards: another tick emits nothing
    assert_eq!(agg.on_timer_tick().len(), 0);
}

#[test]
fn reaching_threshold_flushes_immediately() {
    let mut agg = Aggregator::with_threshold(5);
    for i in 1..=4u64 {
        assert!(agg.ingest(tx(i, TransactionType::Trade)).is_none());
    }
    let batch = agg.ingest(tx(5, TransactionType::Trade)).expect("threshold reached");
    assert_eq!(batch.data_type, TransactionType::Trade);
    assert_eq!(ids(&batch), vec![1, 2, 3, 4, 5]);
    // the category is empty immediately afterwards
    assert_eq!(agg.on_timer_tick().len(), 0);
}

#[test]
fn categories_are_independent() {
    let mut agg = Aggregator::with_threshold(3);
    assert!(agg.ingest(tx(1, TransactionType::Bet)).is_none());
    assert!(agg.ingest(tx(2, TransactionType::Deposit)).is_none());
    assert!(agg.ingest(tx(3, TransactionType::Bet)).is_none());
    // the third bet flushes bets only; the deposit stays put
    let batch = agg.ingest(tx(4, TransactionType::Bet)).expect("bet threshold reached");
    assert_eq!(batch.data_type, TransactionType::Bet);
    assert_eq!(ids(&batch), vec![1, 3, 4]);
    let batches = agg.on_timer_tick();
    assert_eq!(batches.len(), 1);
    assert_eq!(batches[0].data_type, TransactionType::Deposit);
    assert_eq!(ids(&batches[0]), vec![2]);
}

#[test]
fn forced_second_flush_carries_nothing() {
    let mut agg = Aggregator::with_threshold(10);
    agg.ingest(tx(1, TransactionType::Withdrawal));
    agg.ingest(tx(2, TransactionType::Withdrawal));
    let first = agg.flush_category(TransactionType::Withdrawal);
    assert_eq!(ids(&first), vec![1, 2]);
    // a second flush with no intervening ingest never redelivers
    let second = agg.flush_category(TransactionType::Withdrawal);
    assert_eq!(second.batch_data.len(), 0);
    // and the timer skips the emptied category entirely
    assert_eq!(agg.on_timer_tick().len(), 0);
}

#[test]
fn batch_order_matches_ingestion_order() {
    let mut agg = Aggregator::with_threshold(4);
    let order = [30u64, 10, 40, 20];
    let mut last = None;
    for id in order {
        last = agg.ingest(tx(id, TransactionType::Deposit));
    }
    let batch = last.expect("threshold reached");
    assert_eq!(ids(&batch), vec![30, 10, 40, 20]);
}

#[test]
fn one_hundred_fifty_bets_flush_twice() {
    // default threshold of 100; 150 events, no timer tick in between
    let mut agg = Aggregator::new();
    assert_eq!(agg.threshold(), 100);
    let mut flushes: Vec<(u64, BatchMessage)> = Vec::new();
    for i in 1..=150u64 {
        if let Some(batch) = agg.ingest(tx(i, TransactionType::Bet)) {
            flushes.push((i, batch));
        }
    }
    // exactly one write so far, the instant the 100th event was ingested,
    // carrying events 1..=100 in arrival order
    assert_eq!(flushes.len(), 1);
    let (at, ref first) = flushes[0];
    assert_eq!(at, 100);
    assert_eq!(first.data_type, TransactionType::Bet);
    assert_eq!(ids(first), (1..=100).collect::<Vec<u64>>());
    // the second write happens only once a timer tick fires, with 101..=150
    let batches = agg.on_timer_tick();
    assert_eq!(batches.len(), 1);
    assert_eq!(batches[0].data_type, TransactionType::Bet);
    assert_eq!(ids(&batches[0]), (101..=150).collect::<Vec<u64>>());
}

#[test]
fn timer_flushes_each_non_empty_category_once() {
    // default threshold of 100; 20 trades and 10 deposits, then a tick
    let mut agg = Aggregator::new();
    for i in 1..=20u64 {
        assert!(agg.ingest(tx(i, TransactionType::Trade)).is_none());
    }
    for i in 21..=30u64 {
        assert!(agg.ingest(tx(i, TransactionType::Deposit)).is_none());
    }
    let batches = agg.on_timer_tick();
    // exactly two writes, one per non-empty category, each with its own
    // events; the untouched categories produce no call
    assert_eq!(batches.len(), 2);
    assert_eq!(batches[0].data_type, TransactionType::Trade);
    assert_eq!(ids(&batches[0]), (1..=20).collect::<Vec<u64>>());
    assert_eq!(batches[1].data_type, TransactionType::Deposit);
    assert_eq!(ids(&batches[1]), (21..=30).collect::<Vec<u64>>());
}

#[test]
fn successive_batches_of_a_category_keep_fifo_order() {
    let mut agg = Aggregator::with_threshold(3);
    let mut delivered: Vec<u64> = Vec::new();
    for i in 1..=7u64 {
        if let Some(batch) = agg.ingest(tx(i, TransactionType::Bet)) {
            delivered.extend(ids(&batch));
        }
    }
    for batch in agg.on_timer_tick() {
        delivered.extend(ids(&batch));
    }
    // everything arrives exactly once, in arrival order
    assert_eq!(delivered, (1..=7).collect::<Vec<u64>>());
}
