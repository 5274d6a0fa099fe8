use vstd::prelude::*;

use crate::data::{
    BlockDetails, BlockRecord, ChartData, DataPoint, IngestError, MarketData, MarketPoint,
    MarketSample, NetworkSample,
};
use crate::numeric::{ms_to_secs, ms_to_secs_spec, wrap_i32_spec, wrap_to_i32};
use crate::store::{
    has_height, lemma_latest_height_is_max, spec_latest_height, spec_upsert, unique_heights, Store,
};

verus! {

/// The market row that position `i` of the two parallel series yields:
/// price and volume are combined by array index, and the price point's
/// millisecond timestamp is truncated to whole seconds.
pub open spec fn market_row_at(prices: Seq<MarketPoint>, volumes: Seq<MarketPoint>, i: int) -> MarketSample {
    MarketSample {
        timestamp: ms_to_secs_spec(prices[i].timestamp_ms as int) as i64,
        price: prices[i].value,
        volume: volumes[i].value,
    }
}

/// The bulk market load: one row per index of the shorter series.
pub open spec fn spec_market_rows(prices: Seq<MarketPoint>, volumes: Seq<MarketPoint>) -> Seq<
    MarketSample,
> {
    Seq::new(
        if prices.len() <= volumes.len() {
            prices.len()
        } else {
            volumes.len()
        },
        |i: int| market_row_at(prices, volumes, i),
    )
}

/// The network row that position `i` of the hash-rate and difficulty series
/// yields: the two series are zipped by array index, not by timestamp, and the
/// hash-rate point supplies the (epoch-second) timestamp.
pub open spec fn network_row_at(hash_rate: Seq<DataPoint>, difficulty: Seq<DataPoint>, i: int) -> NetworkSample {
    NetworkSample {
        timestamp: hash_rate[i].x,
        hash_rate: hash_rate[i].y,
        difficulty: difficulty[i].y,
    }
}

pub open spec fn spec_network_rows(hash_rate: Seq<DataPoint>, difficulty: Seq<DataPoint>) -> Seq<
    NetworkSample,
> {
    Seq::new(
        if hash_rate.len() <= difficulty.len() {
            hash_rate.len()
        } else {
            difficulty.len()
        },
        |i: int| network_row_at(hash_rate, difficulty, i),
    )
}

/// Computes the rows of the one-time market backfill.
pub fn market_bootstrap_rows(data: &MarketData) -> (rows: Vec<MarketSample>)
    ensures
        rows@ == spec_market_rows(data.prices@, data.total_volumes@),
{
    let n = if data.prices.len() <= data.total_volumes.len() {
        data.prices.len()
    } else {
        data.total_volumes.len()
    };
    let mut rows: Vec<MarketSample> = Vec::new();
    let mut i: usize = 0;
    while i < n
        invariant
            i <= n,
            n == if data.prices@.len() <= data.total_volumes@.len() {
                data.prices@.len()
            } else {
                data.total_volumes@.len()
            },
            rows@.len() == i,
            forall|k: int| 0 <= k < i ==> rows@[k] == market_row_at(
                data.prices@,
                data.total_volumes@,
                k,
            ),
        decreases n - i,
    {
        rows.push(
            MarketSample {
                timestamp: ms_to_secs(data.prices[i].timestamp_ms),
                price: data.prices[i].value,
                volume: data.total_volumes[i].value,
            },
        );
        i += 1;
    }
    proof {
        assert(rows@ =~= spec_market_rows(data.prices@, data.total_volumes@));
    }
    rows
}

/// Computes the rows of the one-time network backfill.
pub fn network_bootstrap_rows(hash_rate: &ChartData, difficulty: &ChartData) -> (rows: Vec<
    NetworkSample,
>)
    ensures
        rows@ == spec_network_rows(hash_rate.values@, difficulty.values@),
{
    let n = if hash_rate.values.len() <= difficulty.values.len() {
        hash_rate.values.len()
    } else {
        difficulty.values.len()
    };
    let mut rows: Vec<NetworkSample> = Vec::new();
    let mut i: usize = 0;
    while i < n
        invariant
            i <= n,
            n == if hash_rate.values@.len() <= difficulty.values@.len() {
                hash_rate.values@.len()
            } else {
                difficulty.values@.len()
            },
            rows@.len() == i,
            forall|k: int| 0 <= k < i ==> rows@[k] == network_row_at(
                hash_rate.values@,
                difficulty.values@,
                k,
            ),
        decreases n - i,
    {
        rows.push(
            NetworkSample {
                timestamp: hash_rate.values[i].x,
                hash_rate: hash_rate.values[i].y,
                difficulty: difficulty.values[i].y,
            },
        );
        i += 1;
    }
    proof {
        assert(rows@ =~= spec_network_rows(hash_rate.values@, difficulty.values@));
    }
    rows
}

/// The bootstrap rule: a table is backfilled exactly when its row count is
/// zero.
pub fn needs_bootstrap(count: i64) -> (r: bool)
    ensures
        r == (count == 0),
{
    count == 0
}

/// Runs the one-time market backfill against the store model: with a row
/// count of zero every computed row is appended in order, otherwise nothing
/// happens. The other tables are never touched.
pub fn run_market_bootstrap(store: &mut Store, count: i64, data: &MarketData) -> (loaded: bool)
    requires
        old(store).wf(),
    ensures
        final(store).wf(),
        loaded == (count == 0),
        count == 0 ==> final(store).market@ == old(store).market@ + spec_market_rows(
            data.prices@,
            data.total_volumes@,
        ),
        count != 0 ==> final(store).market@ == old(store).market@,
        final(store).network@ == old(store).network@,
        final(store).blocks@ == old(store).blocks@,
{
    if count != 0 {
        return false;
    }
    let rows = market_bootstrap_rows(data);
    let n = rows.len();
    let mut i: usize = 0;
    while i < n
        invariant
            i <= n,
            n == rows@.len(),
            store.wf(),
            rows@ == spec_market_rows(data.prices@, data.total_volumes@),
            store.market@ == old(store).market@ + rows@.subrange(0, i as int),
            store.network@ == old(store).network@,
            store.blocks@ == old(store).blocks@,
        decreases n - i,
    {
        let row = rows[i];
        store.insert_market_sample(row);
        proof {
            assert(old(store).market@ + rows@.subrange(0, i as int + 1) =~= (old(store).market@
                + rows@.subrange(0, i as int)).push(rows@[i as int]));
        }
        i += 1;
    }
    proof {
        assert(rows@.subrange(0, n as int) =~= rows@);
    }
    true
}

/// Runs the one-time network backfill against the store model.
pub fn run_network_bootstrap(
    store: &mut Store,
    count: i64,
    hash_rate: &ChartData,
    difficulty: &ChartData,
) -> (loaded: bool)
    requires
        old(store).wf(),
    ensures
        final(store).wf(),
        loaded == (count == 0),
        count == 0 ==> final(store).network@ == old(store).network@ + spec_network_rows(
            hash_rate.values@,
            difficulty.values@,
        ),
        count != 0 ==> final(store).network@ == old(store).network@,
        final(store).market@ == old(store).market@,
        final(store).blocks@ == old(store).blocks@,
{
    if count != 0 {
        return false;
    }
    let rows = network_bootstrap_rows(hash_rate, difficulty);
    let n = rows.len();
    let mut i: usize = 0;
    while i < n
        invariant
            i <= n,
            n == rows@.len(),
            store.wf(),
            rows@ == spec_network_rows(hash_rate.values@, difficulty.values@),
            store.network@ == old(store).network@ + rows@.subrange(0, i as int),
            store.market@ == old(store).market@,
            store.blocks@ == old(store).blocks@,
        decreases n - i,
    {
        let row = rows[i];
        store.insert_network_sample(row);
        proof {
            assert(old(store).network@ + rows@.subrange(0, i as int + 1) =~= (old(store).network@
                + rows@.subrange(0, i as int)).push(rows@[i as int]));
        }
        i += 1;
    }
    proof {
        assert(rows@.subrange(0, n as int) =~= rows@);
    }
    true
}

/// The sample a market tick writes: the last point of each parallel series.
pub open spec fn spec_latest_market_sample(data: MarketData) -> MarketSample {
    MarketSample {
        timestamp: ms_to_secs_spec(data.prices@.last().timestamp_ms as int) as i64,
        price: data.prices@.last().value,
        volume: data.total_volumes@.last().value,
    }
}

/// Picks the row a market tick inserts: the last price point and the last
/// volume point, combined. An empty series is reported as such.
pub fn latest_market_sample(data: &MarketData) -> (r: Result<MarketSample, IngestError>)
    ensures
        r is Ok <==> data.prices@.len() > 0 && data.total_volumes@.len() > 0,
        r matches Ok(s) ==> s == spec_latest_market_sample(*data),
        r is Err ==> r == Err::<MarketSample, IngestError>(IngestError::EmptySeries),
{
    if data.prices.len() == 0 || data.total_volumes.len() == 0 {
        return Err(IngestError::EmptySeries);
    }
    let p = data.prices[data.prices.len() - 1];
    let v = data.total_volumes[data.total_volumes.len() - 1];
    Ok(MarketSample { timestamp: ms_to_secs(p.timestamp_ms), price: p.value, volume: v.value })
}

/// The row a network tick writes: the last hash-rate point (which supplies
/// the timestamp) and the last difficulty point.
pub open spec fn spec_latest_network_sample(hash_rate: ChartData, difficulty: ChartData) -> NetworkSample {
    NetworkSample {
        timestamp: hash_rate.values@.last().x,
        hash_rate: hash_rate.values@.last().y,
        difficulty: difficulty.values@.last().y,
    }
}

pub fn latest_network_sample(hash_rate: &ChartData, difficulty: &ChartData) -> (r: Result<
    NetworkSample,
    IngestError,
>)
    ensures
        r is Ok <==> hash_rate.values@.len() > 0 && difficulty.values@.len() > 0,
        r matches Ok(s) ==> s == spec_latest_network_sample(*hash_rate, *difficulty),
        r is Err ==> r == Err::<NetworkSample, IngestError>(IngestError::EmptySeries),
{
    if hash_rate.values.len() == 0 || difficulty.values.len() == 0 {
        return Err(IngestError::EmptySeries);
    }
    let h = hash_rate.values[hash_rate.values.len() - 1];
    let d = difficulty.values[difficulty.values.len() - 1];
    Ok(NetworkSample { timestamp: h.x, hash_rate: h.y, difficulty: d.y })
}

/// One market tick against the store model: a fetched series yields exactly
/// one appended row; a transport error, a decode error or an empty series
/// changes nothing, and no tick ever touches another feed's table.
pub fn run_market_tick(store: &mut Store, fetch: Result<MarketData, IngestError>) -> (inserted:
    bool)
    requires
        old(store).wf(),
    ensures
        final(store).wf(),
        final(store).network@ == old(store).network@,
        final(store).blocks@ == old(store).blocks@,
        inserted <==> (fetch matches Ok(d) && d.prices@.len() > 0 && d.total_volumes@.len() > 0),
        fetch matches Ok(d) ==> (d.prices@.len() > 0 && d.total_volumes@.len() > 0
            ==> final(store).market@ == old(store).market@.push(spec_latest_market_sample(d))),
        !inserted ==> final(store).market@ == old(store).market@,
{
    match fetch {
        Ok(data) => {
            match latest_market_sample(&data) {
                Ok(sample) => {
                    store.insert_market_sample(sample);
                    true
                },
                Err(_) => false,
            }
        },
        Err(_) => false,
    }
}

/// One network tick against the store model; the same failure policy as the
/// market tick.
pub fn run_network_tick(
    store: &mut Store,
    hash_rate: Result<ChartData, IngestError>,
    difficulty: Result<ChartData, IngestError>,
) -> (inserted: bool)
    requires
        old(store).wf(),
    ensures
        final(store).wf(),
        final(store).market@ == old(store).market@,
        final(store).blocks@ == old(store).blocks@,
        inserted <==> (hash_rate matches Ok(h) && difficulty matches Ok(d) && h.values@.len() > 0
            && d.values@.len() > 0),
        hash_rate matches Ok(h) ==> (difficulty matches Ok(d) ==> (h.values@.len() > 0
            && d.values@.len() > 0 ==> final(store).network@ == old(store).network@.push(
            spec_latest_network_sample(h, d),
        ))),
        !inserted ==> final(store).network@ == old(store).network@,
{
    match (hash_rate, difficulty) {
        (Ok(h), Ok(d)) => {
            match latest_network_sample(&h, &d) {
                Ok(sample) => {
                    store.insert_network_sample(sample);
                    true
                },
                Err(_) => false,
            }
        },
        _ => false,
    }
}

/// What a block tick decides to do after the tip height came back.
#[derive(Clone, Copy, Debug, PartialEq, Eq, Structural)]
pub enum BlockTickPlan {
    /// The tip is strictly taller than the stored latest height: fetch the
    /// block's details and upsert them.
    Fetch { height: i64 },
    /// The tip is not taller (or the tip fetch failed): do nothing.
    Skip,
}

/// The block-feed policy: fetch and write only when the tip is strictly
/// taller than the stored latest height.
pub open spec fn spec_block_plan(tip: Result<i64, IngestError>, stored_latest: i64) -> BlockTickPlan {
    match tip {
        Ok(h) => if h > stored_latest {
            BlockTickPlan::Fetch { height: h }
        } else {
            BlockTickPlan::Skip
        },
        Err(_) => BlockTickPlan::Skip,
    }
}

pub fn plan_block_tick(tip: &Result<i64, IngestError>, stored_latest: i64) -> (p: BlockTickPlan)
    ensures
        p == spec_block_plan(*tip, stored_latest),
{
    match tip {
        Ok(h) => if *h > stored_latest {
            BlockTickPlan::Fetch { height: *h }
        } else {
            BlockTickPlan::Skip
        },
        Err(_) => BlockTickPlan::Skip,
    }
}

/// The row an upsert writes for a block: the details' numeric fields, with
/// the transaction count narrowed to 32 bits the way the stored column is.
pub open spec fn spec_block_record(height: i64, block_hash: String, d: BlockDetails) -> BlockRecord {
    BlockRecord {
        block_hash: block_hash,
        height: height,
        timestamp: d.timestamp,
        tx_count: wrap_i32_spec(d.tx_count as int) as i32,
        size: d.size,
        weight: d.weight,
    }
}

pub fn build_block_record(height: i64, block_hash: String, d: &BlockDetails) -> (r: BlockRecord)
    ensures
        r == spec_block_record(height, block_hash, *d),
{
    let tx_count = wrap_to_i32(d.tx_count);
    BlockRecord {
        block_hash,
        height,
        timestamp: d.timestamp,
        tx_count,
        size: d.size,
        weight: d.weight,
    }
}

/// Finishes a block tick against the store model once the details fetch came
/// back: a fetched block is upserted at its height; a failed fetch changes
/// nothing. Either way the other feeds' tables are untouched.
pub fn run_block_upsert(
    store: &mut Store,
    height: i64,
    fetched: Result<(String, BlockDetails), IngestError>,
) -> (written: bool)
    requires
        old(store).wf(),
    ensures
        final(store).wf(),
        final(store).market@ == old(store).market@,
        final(store).network@ == old(store).network@,
        written == (fetched is Ok),
        fetched matches Ok(p) ==> final(store).blocks@ == spec_upsert(
            old(store).blocks@,
            spec_block_record(height, p.0, p.1),
        ),
        fetched is Err ==> final(store).blocks@ == old(store).blocks@,
{
    match fetched {
        Ok((block_hash, details)) => {
            let rec = build_block_record(height, block_hash, &details);
            store.upsert_block(rec);
            true
        },
        Err(_) => false,
    }
}

/// The bulk market load issues exactly one insert per index: for parallel
/// series of equal length `n` there are `n` rows, and row `i` combines
/// `prices[i]` with `volumes[i]` (timestamp truncated to whole seconds).
pub proof fn lemma_market_bootstrap_pairwise(prices: Seq<MarketPoint>, volumes: Seq<MarketPoint>)
    requires
        prices.len() == volumes.len(),
    ensures
        spec_market_rows(prices, volumes).len() == prices.len(),
        forall|i: int| 0 <= i < prices.len() ==> spec_market_rows(prices, volumes)[i]
            == (MarketSample {
            timestamp: ms_to_secs_spec(prices[i].timestamp_ms as int) as i64,
            price: prices[i].value,
            volume: volumes[i].value,
        }),
{
}

/// The block-feed policy in full: with stored latest height `stored` and tip
/// height `tip`, a taller tip plans exactly one fetch-and-upsert for `tip`
/// and that upsert appends exactly one row of height `tip` (no prior row can
/// carry it); a tip at or below `stored` plans nothing, as does a failed tip
/// fetch.
pub proof fn lemma_block_tick_policy(
    blocks: Seq<BlockRecord>,
    stored: i64,
    tip: i64,
    rec: BlockRecord,
)
    requires
        stored as int == spec_latest_height(blocks),
        rec.height == tip,
    ensures
        tip > stored ==> spec_block_plan(Ok(tip), stored) == (BlockTickPlan::Fetch {
            height: tip,
        }),
        tip > stored ==> !has_height(blocks, tip) && spec_upsert(blocks, rec) == blocks.push(rec),
        tip <= stored ==> spec_block_plan(Ok(tip), stored) == BlockTickPlan::Skip,
        spec_block_plan(Err(IngestError::Transport), stored) == BlockTickPlan::Skip,
        spec_block_plan(Err(IngestError::Decode), stored) == BlockTickPlan::Skip,
{
    if tip > stored {
        lemma_latest_height_is_max(blocks);
        assert(!has_height(blocks, tip));
    }
}

/// Upsert-by-height is idempotent: writing the same height twice keeps a
/// single row of that height, holding the later payload, exactly as if only
/// the later write had happened.
pub proof fn lemma_upsert_idempotent(
    blocks: Seq<BlockRecord>,
    first: BlockRecord,
    second: BlockRecord,
)
    requires
        unique_heights(blocks),
        first.height == second.height,
    ensures
        spec_upsert(spec_upsert(blocks, first), second) == spec_upsert(blocks, second),
        spec_upsert(spec_upsert(blocks, first), second).len() == spec_upsert(blocks, second).len(),
{
    let h = first.height;
    if has_height(blocks, h) {
        let c = choose|i: int| 0 <= i < blocks.len() && blocks[i].height == h;
        let once = blocks.update(c, first);
        assert(spec_upsert(blocks, first) == once);
        assert(once[c].height == h);
        assert(has_height(once, h));
        let c2 = choose|i: int| 0 <= i < once.len() && once[i].height == h;
        assert(once[c2].height == h);
        if c2 != c {
            assert(blocks[c2].height == once[c2].height);
            assert(false);
        }
        assert(spec_upsert(once, second) =~= blocks.update(c, second));
        assert(spec_upsert(blocks, second) == blocks.update(
            choose|i: int| 0 <= i < blocks.len() && blocks[i].height == second.height,
            second,
        ));
        let c3 = choose|i: int| 0 <= i < blocks.len() && blocks[i].height == second.height;
        if c3 != c {
            assert(false);
        }
    } else {
        let once = blocks.push(first);
        assert(spec_upsert(blocks, first) == once);
        assert(once[blocks.len() as int].height == h);
        assert(has_height(once, h));
        let c2 = choose|i: int| 0 <= i < once.len() && once[i].height == h;
        if c2 != blocks.len() {
            assert(once[c2] == blocks[c2]);
            assert(has_height(blocks, h));
            assert(false);
        }
        assert(spec_upsert(once, second) =~= blocks.push(second));
        assert(spec_upsert(blocks, second) == blocks.push(second));
    }
}

} // verus!
