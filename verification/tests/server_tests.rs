use bitcoin_explorer_ingestion::data::{BlockDetails, IngestError};
use bitcoin_explorer_ingestion::schedule::build_block_record;
use bitcoin_explorer_ingestion::server::{
    latest_block_reply, latest_block_status, no_rows_message, read_endpoint_status,
};
use bitcoin_explorer_ingestion::store::Store;
use bitcoin_explorer_ingestion::timefmt::render_timestamp;

#[test]
fn latest_block_on_empty_table_is_not_found() {
    let store = Store::new();
    let reply = latest_block_reply(&store);
    assert!(reply.is_none());
    assert_eq!(latest_block_status(reply.is_some()), 404);
    assert_eq!(no_rows_message(), "No data found in blocks table.");
}

#[test]
fn latest_block_after_one_upsert_serves_that_row() {
    let mut store = Store::new();
    let details = BlockDetails { timestamp: 1231469665, tx_count: 1, size: 215, weight: 860 };
    store.upsert_block(build_block_record(
        800000,
        String::from("00000000839a8e6886ab5951d76f411475428afc90947ee320161bbf18eb6048"),
        &details,
    ));
    let reply = latest_block_reply(&store);
    assert_eq!(latest_block_status(reply.is_some()), 200);
    let resp = reply.unwrap();
    assert_eq!(
        resp.block_hash,
        "00000000839a8e6886ab5951d76f411475428afc90947ee320161bbf18eb6048"
    );
    assert_eq!(resp.height, 800000);
    assert_eq!(resp.timestamp, "2009-01-09 02:54:25");
    assert_eq!(resp.tx_count, 1);
    assert_eq!(resp.size, 215);
    assert_eq!(resp.weight, 860);
}

#[test]
fn latest_block_serves_the_max_height_row() {
    let mut store = Store::new();
    let d = BlockDetails { timestamp: 100, tx_count: 5, size: 6, weight: 7 };
    store.upsert_block(build_block_record(12, String::from("low"), &d));
    store.upsert_block(build_block_record(90, String::from("high"), &d));
    store.upsert_block(build_block_record(40, String::from("mid"), &d));
    let resp = latest_block_reply(&store).unwrap();
    assert_eq!(resp.height, 90);
    assert_eq!(resp.block_hash, "high");
}

#[test]
fn read_endpoints_answer_500_on_storage_failure() {
    assert_eq!(read_endpoint_status(Err(IngestError::Storage)), 500);
    assert_eq!(read_endpoint_status(Ok(true)), 200);
    assert_eq!(read_endpoint_status(Ok(false)), 404);
}

#[test]
fn timestamps_render_as_utc_date_time_text() {
    assert_eq!(render_timestamp(0), "1970-01-01 00:00:00");
    assert_eq!(render_timestamp(1431648000), "2015-05-15 00:00:00");
    assert_eq!(render_timestamp(-1), "1969-12-31 23:59:59");
}
