use vstd::prelude::*;

verus! {

/// The failure kinds the ingestion pipeline distinguishes.
///
/// `Transport` covers network trouble (timeout, refused connection, non-2xx
/// status), `Decode` covers malformed upstream payloads, `Storage` covers
/// database failures, and `EmptySeries` means an upstream chart carried no
/// points although at least one was expected.
#[derive(Clone, Copy, Debug, PartialEq, Eq, Structural)]
pub enum IngestError {
    Transport,
    Decode,
    Storage,
    EmptySeries,
}

/// One point of the market chart: an epoch-millisecond timestamp paired with a
/// measurement.
///
/// Measurements (prices, volumes, hash rates, difficulties) are carried as
/// opaque 64-bit payloads: the scheduler never interprets their magnitude, it
/// only moves them between a feed and a table. The process edge decides how a
/// payload is encoded and decoded.
#[derive(Clone, Copy, Debug, PartialEq, Eq, Structural)]
pub struct MarketPoint {
    pub timestamp_ms: i64,
    pub value: u64,
}

/// The market chart: two parallel series, aligned by array index.
pub struct MarketData {
    pub prices: Vec<MarketPoint>,
    pub total_volumes: Vec<MarketPoint>,
}

/// One point of a network chart: an epoch-second timestamp `x` and an opaque
/// measurement payload `y`.
#[derive(Clone, Copy, Debug, PartialEq, Eq, Structural)]
pub struct DataPoint {
    pub x: i64,
    pub y: u64,
}

/// A single network chart (hash rate or difficulty).
pub struct ChartData {
    pub values: Vec<DataPoint>,
}

/// A row of the `market_data` table: epoch-second timestamp plus the price and
/// volume payloads.
#[derive(Clone, Copy, Debug, PartialEq, Eq, Structural)]
pub struct MarketSample {
    pub timestamp: i64,
    pub price: u64,
    pub volume: u64,
}

/// A row of the `network_stats` table.
#[derive(Clone, Copy, Debug, PartialEq, Eq, Structural)]
pub struct NetworkSample {
    pub timestamp: i64,
    pub hash_rate: u64,
    pub difficulty: u64,
}

/// The numeric fields read out of a block-details document. Missing fields
/// default to zero before a record is built.
#[derive(Clone, Copy, Debug, PartialEq, Eq, Structural)]
pub struct BlockDetails {
    pub timestamp: i64,
    pub tx_count: i64,
    pub size: i64,
    pub weight: i64,
}

/// A row of the `blocks` table. `height` is the unique key: a second write at
/// the same height overwrites every other field instead of adding a row.
#[derive(Debug)]
pub struct BlockRecord {
    pub block_hash: String,
    pub height: i64,
    pub timestamp: i64,
    pub tx_count: i32,
    pub size: i64,
    pub weight: i64,
}

} // verus!
