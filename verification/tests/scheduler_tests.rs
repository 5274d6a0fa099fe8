use bitcoin_explorer_ingestion::data::{
    ChartData, DataPoint, IngestError, MarketData, MarketPoint,
};
use bitcoin_explorer_ingestion::schedule::{
    build_block_record, latest_market_sample, latest_network_sample, market_bootstrap_rows,
    needs_bootstrap, network_bootstrap_rows, plan_block_tick, run_block_upsert,
    run_market_bootstrap, run_market_tick, run_network_bootstrap, run_network_tick, BlockTickPlan,
};
use bitcoin_explorer_ingestion::data::{BlockDetails, MarketSample};
use bitcoin_explorer_ingestion::store::Store;

fn market_series(points: &[(i64, u64, u64)]) -> MarketData {
    MarketData {
        prices: points.iter().map(|&(t, p, _)| MarketPoint { timestamp_ms: t, value: p }).collect(),
        total_volumes: points
            .iter()
            .map(|&(t, _, v)| MarketPoint { timestamp_ms: t, value: v })
            .collect(),
    }
}

#[test]
fn bootstrap_market_three_points() {
    // A 3-point series: millisecond timestamps truncate to whole seconds and
    // price/volume combine by array index.
    let data = market_series(&[(1000, 100, 5), (2000, 110, 6), (3000, 120, 7)]);
    let mut store = Store::new();
    let loaded = run_market_bootstrap(&mut store, 0, &data);
    assert!(loaded);
    assert_eq!(store.market.len(), 3);
    let expected = [(1i64, 100u64, 5u64), (2, 110, 6), (3, 120, 7)];
    for (row, &(t, p, v)) in store.market.iter().zip(expected.iter()) {
        assert_eq!(row.timestamp, t);
        assert_eq!(row.price, p);
        assert_eq!(row.volume, v);
    }
}

#[test]
fn bootstrap_skipped_when_table_nonempty() {
    let data = market_series(&[(1000, 100, 5)]);
    let mut store = Store::new();
    let loaded = run_market_bootstrap(&mut store, 42, &data);
    assert!(!loaded);
    assert_eq!(store.market.len(), 0);
}

#[test]
fn bootstrap_market_pairs_by_shorter_series() {
    let data = MarketData {
        prices: vec![
            MarketPoint { timestamp_ms: 1000, value: 1 },
            MarketPoint { timestamp_ms: 2000, value: 2 },
        ],
        total_volumes: vec![MarketPoint { timestamp_ms: 1000, value: 9 }],
    };
    let rows = market_bootstrap_rows(&data);
    assert_eq!(rows.len(), 1);
    assert_eq!(rows[0].timestamp, 1);
    assert_eq!(rows[0].price, 1);
    assert_eq!(rows[0].volume, 9);
}

#[test]
fn bootstrap_market_empty_series_inserts_nothing() {
    let data = market_series(&[]);
    let mut store = Store::new();
    assert!(run_market_bootstrap(&mut store, 0, &data));
    assert_eq!(store.market.len(), 0);
}

#[test]
fn bootstrap_network_zips_by_index_not_timestamp() {
    // The two charts carry different timestamps on purpose: rows pair by
    // position and keep the hash-rate chart's timestamp.
    let hash_rate = ChartData {
        values: vec![DataPoint { x: 10, y: 70 }, DataPoint { x: 20, y: 71 }],
    };
    let difficulty = ChartData {
        values: vec![DataPoint { x: 11, y: 90 }, DataPoint { x: 21, y: 91 }],
    };
    let rows = network_bootstrap_rows(&hash_rate, &difficulty);
    assert_eq!(rows.len(), 2);
    assert_eq!(rows[0].timestamp, 10);
    assert_eq!(rows[0].hash_rate, 70);
    assert_eq!(rows[0].difficulty, 90);
    assert_eq!(rows[1].timestamp, 20);
    assert_eq!(rows[1].hash_rate, 71);
    assert_eq!(rows[1].difficulty, 91);

    let mut store = Store::new();
    assert!(run_network_bootstrap(&mut store, 0, &hash_rate, &difficulty));
    assert_eq!(store.network.len(), 2);
    assert_eq!(store.network[1].timestamp, 20);
}

#[test]
fn needs_bootstrap_only_on_zero_count() {
    assert!(needs_bootstrap(0));
    assert!(!needs_bootstrap(1));
    assert!(!needs_bootstrap(365));
}

#[test]
fn market_tick_inserts_last_point() {
    let data = market_series(&[(1000, 100, 5), (1999, 110, 6)]);
    let mut store = Store::new();
    let inserted = run_market_tick(&mut store, Ok(data));
    assert!(inserted);
    assert_eq!(store.market.len(), 1);
    // 1999 ms truncate to 1 s.
    assert_eq!(store.market[0].timestamp, 1);
    assert_eq!(store.market[0].price, 110);
    assert_eq!(store.market[0].volume, 6);
}

#[test]
fn market_tick_empty_series_is_skipped() {
    let data = market_series(&[]);
    let mut store = Store::new();
    assert!(!run_market_tick(&mut store, Ok(data)));
    assert_eq!(store.market.len(), 0);
}

#[test]
fn latest_market_sample_reports_empty_series() {
    let data = market_series(&[]);
    assert_eq!(latest_market_sample(&data), Err(IngestError::EmptySeries));
    let one = market_series(&[(5000, 1, 2)]);
    assert_eq!(
        latest_market_sample(&one),
        Ok(MarketSample { timestamp: 5, price: 1, volume: 2 })
    );
}

#[test]
fn network_tick_inserts_last_points() {
    let hash_rate = ChartData {
        values: vec![DataPoint { x: 100, y: 7 }, DataPoint { x: 200, y: 8 }],
    };
    let difficulty = ChartData { values: vec![DataPoint { x: 300, y: 9 }] };
    let mut store = Store::new();
    assert!(run_network_tick(&mut store, Ok(hash_rate), Ok(difficulty)));
    assert_eq!(store.network.len(), 1);
    assert_eq!(store.network[0].timestamp, 200);
    assert_eq!(store.network[0].hash_rate, 8);
    assert_eq!(store.network[0].difficulty, 9);
}

#[test]
fn network_tick_error_is_skipped() {
    let difficulty = ChartData { values: vec![DataPoint { x: 300, y: 9 }] };
    let mut store = Store::new();
    assert!(!run_network_tick(&mut store, Err(IngestError::Transport), Ok(difficulty)));
    assert_eq!(store.network.len(), 0);
}

#[test]
fn latest_network_sample_reports_empty_series() {
    let empty = ChartData { values: vec![] };
    let full = ChartData { values: vec![DataPoint { x: 1, y: 2 }] };
    assert_eq!(latest_network_sample(&empty, &full), Err(IngestError::EmptySeries));
    assert_eq!(latest_network_sample(&full, &empty), Err(IngestError::EmptySeries));
}

#[test]
fn block_tick_taller_tip_plans_fetch() {
    assert_eq!(
        plan_block_tick(&Ok(800001), 800000),
        BlockTickPlan::Fetch { height: 800001 }
    );
}

#[test]
fn block_tick_unchanged_tip_is_noop() {
    // Stored latest 800000, tip 800000: no details fetch, no write.
    assert_eq!(plan_block_tick(&Ok(800000), 800000), BlockTickPlan::Skip);
    let mut store = Store::new();
    store.upsert_block(build_block_record(
        800000,
        String::from("h"),
        &BlockDetails { timestamp: 1, tx_count: 2, size: 3, weight: 4 },
    ));
    assert_eq!(store.latest_block_height(), 800000);
    assert_eq!(plan_block_tick(&Ok(store.latest_block_height()), store.latest_block_height()), BlockTickPlan::Skip);
    assert_eq!(store.blocks.len(), 1);
}

#[test]
fn block_tick_shorter_tip_is_noop() {
    assert_eq!(plan_block_tick(&Ok(799999), 800000), BlockTickPlan::Skip);
}

#[test]
fn block_tick_failed_tip_fetch_is_noop() {
    assert_eq!(plan_block_tick(&Err(IngestError::Transport), 800000), BlockTickPlan::Skip);
    assert_eq!(plan_block_tick(&Err(IngestError::Decode), 0), BlockTickPlan::Skip);
}

#[test]
fn block_cycle_writes_exactly_one_row() {
    let mut store = Store::new();
    let stored = store.latest_block_height();
    assert_eq!(stored, 0);
    let plan = plan_block_tick(&Ok(100), stored);
    assert_eq!(plan, BlockTickPlan::Fetch { height: 100 });
    let details = BlockDetails { timestamp: 1700000000, tx_count: 2500, size: 1_500_000, weight: 4_000_000 };
    let written = run_block_upsert(&mut store, 100, Ok((String::from("abcd"), details)));
    assert!(written);
    assert_eq!(store.blocks.len(), 1);
    assert_eq!(store.blocks[0].height, 100);
    assert_eq!(store.blocks[0].block_hash, "abcd");
    assert_eq!(store.latest_block_height(), 100);
}

#[test]
fn block_cycle_failed_details_fetch_writes_nothing() {
    let mut store = Store::new();
    assert!(!run_block_upsert(&mut store, 100, Err(IngestError::Transport)));
    assert_eq!(store.blocks.len(), 0);
}

#[test]
fn upsert_same_height_twice_keeps_one_row() {
    // Idempotency: a second upsert at the same height overwrites every
    // non-key field without creating a second row.
    let mut store = Store::new();
    let first = BlockDetails { timestamp: 10, tx_count: 1, size: 100, weight: 400 };
    let second = BlockDetails { timestamp: 20, tx_count: 2, size: 200, weight: 800 };
    store.upsert_block(build_block_record(555, String::from("aa"), &first));
    store.upsert_block(build_block_record(555, String::from("bb"), &second));
    assert_eq!(store.blocks.len(), 1);
    assert_eq!(store.blocks[0].height, 555);
    assert_eq!(store.blocks[0].block_hash, "bb");
    assert_eq!(store.blocks[0].timestamp, 20);
    assert_eq!(store.blocks[0].tx_count, 2);
    assert_eq!(store.blocks[0].size, 200);
    assert_eq!(store.blocks[0].weight, 800);
}

#[test]
fn latest_height_is_zero_on_empty_table_and_max_otherwise() {
    let mut store = Store::new();
    assert_eq!(store.latest_block_height(), 0);
    let d = BlockDetails { timestamp: 0, tx_count: 0, size: 0, weight: 0 };
    store.upsert_block(build_block_record(7, String::from("a"), &d));
    store.upsert_block(build_block_record(3, String::from("b"), &d));
    store.upsert_block(build_block_record(5, String::from("c"), &d));
    assert_eq!(store.latest_block_height(), 7);
    assert_eq!(store.blocks.len(), 3);
}

#[test]
fn build_block_record_narrows_tx_count_like_the_column() {
    let d = BlockDetails { timestamp: 1, tx_count: (1i64 << 32) + 7, size: 2, weight: 3 };
    let rec = build_block_record(1, String::from("x"), &d);
    assert_eq!(rec.tx_count, 7);
    let e = BlockDetails { timestamp: 1, tx_count: i32::MAX as i64 + 1, size: 2, weight: 3 };
    assert_eq!(build_block_record(1, String::from("x"), &e).tx_count, i32::MIN);
    let f = BlockDetails { timestamp: 1, tx_count: -1, size: 2, weight: 3 };
    assert_eq!(build_block_record(1, String::from("x"), &f).tx_count, -1);
}

#[test]
fn failed_tick_leaves_every_feed_untouched() {
    // A decode failure on one feed's tick stalls nothing: the store is
    // unchanged, and later ticks of the same feed and of other feeds still
    // run and write.
    let mut store = Store::new();
    assert!(!run_market_tick(&mut store, Err(IngestError::Decode)));
    assert_eq!(store.market.len(), 0);
    assert_eq!(store.network.len(), 0);
    assert_eq!(store.blocks.len(), 0);

    // The block feed still ticks.
    let details = BlockDetails { timestamp: 1, tx_count: 1, size: 1, weight: 1 };
    assert!(run_block_upsert(&mut store, 10, Ok((String::from("h"), details))));
    assert_eq!(store.blocks.len(), 1);

    // And the market feed's next tick succeeds on its own schedule.
    let data = market_series(&[(4000, 9, 8)]);
    assert!(run_market_tick(&mut store, Ok(data)));
    assert_eq!(store.market.len(), 1);
    assert_eq!(store.blocks.len(), 1);
}
