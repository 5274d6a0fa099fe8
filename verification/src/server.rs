use vstd::prelude::*;

use crate::data::{BlockRecord, IngestError};
use crate::store::{spec_latest_height, Store};
use crate::timefmt::{render_timestamp, time_text};

verus! {

/// The JSON body of `GET /latest-block`: the max-height row, with its
/// timestamp rendered as text.
pub struct LatestBlockResponse {
    pub block_hash: String,
    pub height: i64,
    pub timestamp: String,
    pub tx_count: i32,
    pub size: i64,
    pub weight: i64,
}

/// Whether a response carries exactly the fields of a stored row (the
/// timestamp rendered; the empty text stands in for the few epoch values the
/// calendar library refuses).
pub open spec fn response_matches(resp: LatestBlockResponse, b: BlockRecord) -> bool {
    &&& resp.block_hash@ == b.block_hash@
    &&& resp.height == b.height
    &&& resp.tx_count == b.tx_count
    &&& resp.size == b.size
    &&& resp.weight == b.weight
    &&& (resp.timestamp@ == time_text(b.timestamp as int) || resp.timestamp@ == Seq::<
        char,
    >::empty())
    &&& (-4_000_000_000_000 <= b.timestamp <= 4_000_000_000_000 ==> resp.timestamp@ == time_text(
        b.timestamp as int,
    ))
}

/// Projects one stored row to the response body.
pub fn project_latest_block(latest: Option<&BlockRecord>) -> (r: Option<LatestBlockResponse>)
    ensures
        r is Some <==> latest is Some,
        latest matches Some(b) ==> r matches Some(resp) && response_matches(resp, *b),
{
    match latest {
        None => None,
        Some(b) => Some(
            LatestBlockResponse {
                block_hash: b.block_hash.clone(),
                height: b.height,
                timestamp: render_timestamp(b.timestamp),
                tx_count: b.tx_count,
                size: b.size,
                weight: b.weight,
            },
        ),
    }
}

/// The whole read path of `GET /latest-block` over the store model: the body
/// for the max-height row, or nothing when the table is empty (a 404 with an
/// error body is then served).
pub fn latest_block_reply(store: &Store) -> (r: Option<LatestBlockResponse>)
    ensures
        r is Some <==> store.blocks@.len() > 0,
        r matches Some(resp) ==> exists|i: int|
            0 <= i < store.blocks@.len() && (#[trigger] store.blocks@[i]).height as int
                == spec_latest_height(store.blocks@) && response_matches(resp, store.blocks@[i]),
{
    let latest = store.latest_block();
    project_latest_block(latest)
}

/// The status the endpoint answers with: 200 with a body, 404 without one.
pub fn latest_block_status(found: bool) -> (code: u16)
    ensures
        found ==> code == 200,
        !found ==> code == 404,
{
    if found {
        200
    } else {
        404
    }
}

/// The status of a read endpoint as a whole: a storage failure is served as
/// 500, an answered query as 200 when it found what was asked for and as 404
/// when it did not.
pub fn read_endpoint_status(query: Result<bool, IngestError>) -> (code: u16)
    ensures
        query matches Ok(found) ==> code == (if found {
            200u16
        } else {
            404u16
        }),
        query is Err ==> code == 500,
{
    match query {
        Ok(found) => latest_block_status(found),
        Err(_) => 500,
    }
}

/// The error body served when the blocks table holds no rows.
pub fn no_rows_message() -> (r: &'static str)
    ensures
        r@ == "No data found in blocks table."@,
{
    "No data found in blocks table."
}

} // verus!
