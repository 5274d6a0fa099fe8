use vstd::prelude::*;

use crate::data::{BlockDetails, IngestError};

verus! {

/// What the JSON parse of a block-details document yields: `None` for text
/// that is not a well-formed document, otherwise the `timestamp`, `tx_count`,
/// `size` and `weight` members read as 64-bit integers, each `None` when
/// absent or not such a number. The parse is deterministic, so this is a
/// function of the text alone.
pub uninterp spec fn block_fields_of(text: Seq<char>) -> Option<
    (Option<i64>, Option<i64>, Option<i64>, Option<i64>),
>;

/// Relies on serde_json::from_str, serde_json::Value::get and
/// serde_json::Value::as_i64: one parse of the document, then the four
/// numeric members read out as plain values. The outcome depends on the text
/// alone, which is what `block_fields_of` names.
#[verifier::external_body]
fn parse_block_fields(text: &str) -> (r: Option<
    (Option<i64>, Option<i64>, Option<i64>, Option<i64>),
>)
    ensures
        r == block_fields_of(text@),
{
    match serde_json::from_str::<serde_json::Value>(text) {
        Ok(v) => Some(
            (
                v.get("timestamp").and_then(serde_json::Value::as_i64),
                v.get("tx_count").and_then(serde_json::Value::as_i64),
                v.get("size").and_then(serde_json::Value::as_i64),
                v.get("weight").and_then(serde_json::Value::as_i64),
            ),
        ),
        Err(_) => None,
    }
}

/// A field that was absent or non-numeric defaults to zero.
pub open spec fn or_zero(field: Option<i64>) -> i64 {
    match field {
        Some(v) => v,
        None => 0,
    }
}

/// Builds the details a block row is made of from the four numeric fields of
/// the upstream document, applying the zero default to each missing field.
pub fn block_details_from_fields(
    timestamp: Option<i64>,
    tx_count: Option<i64>,
    size: Option<i64>,
    weight: Option<i64>,
) -> (d: BlockDetails)
    ensures
        d.timestamp == or_zero(timestamp),
        d.tx_count == or_zero(tx_count),
        d.size == or_zero(size),
        d.weight == or_zero(weight),
{
    BlockDetails {
        timestamp: match timestamp {
            Some(v) => v,
            None => 0,
        },
        tx_count: match tx_count {
            Some(v) => v,
            None => 0,
        },
        size: match size {
            Some(v) => v,
            None => 0,
        },
        weight: match weight {
            Some(v) => v,
            None => 0,
        },
    }
}

/// Decodes a block-details document: exactly the texts whose parse yields a
/// document succeed, and the details then carry its four numeric fields with
/// the zero default applied to each absent or non-numeric one. Everything
/// else is a decode failure.
pub fn decode_block_details(text: &str) -> (r: Result<BlockDetails, IngestError>)
    ensures
        r is Ok <==> block_fields_of(text@) is Some,
        r matches Ok(d) ==> block_fields_of(text@) matches Some(f) && d.timestamp == or_zero(f.0)
            && d.tx_count == or_zero(f.1) && d.size == or_zero(f.2) && d.weight == or_zero(f.3),
        r is Err ==> r == Err::<BlockDetails, IngestError>(IngestError::Decode),
{
    match parse_block_fields(text) {
        Some((timestamp, tx_count, size, weight)) => Ok(
            block_details_from_fields(timestamp, tx_count, size, weight),
        ),
        None => Err(IngestError::Decode),
    }
}

} // verus!
