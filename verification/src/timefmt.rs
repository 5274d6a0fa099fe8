use vstd::prelude::*;

verus! {

/// The text that an epoch-second value renders to as `YYYY-MM-DD HH:MM:SS`
/// in UTC, and the empty text for the few values the calendar library
/// refuses. The rendering depends on the seconds value alone.
pub uninterp spec fn time_text(secs: int) -> Seq<char>;

/// Relies on chrono::DateTime::<Utc>::from_timestamp and DateTime::format:
/// the rendered text is a function of the seconds value alone, and
/// from_timestamp returns None only for seconds values hundreds of
/// thousands of years away from the epoch (its source bounds the resulting
/// day number by the range of `i32`), so every value within
/// ±4_000_000_000_000 seconds renders.
#[verifier::external_body]
fn format_utc_seconds(secs: i64) -> (r: Option<String>)
    ensures
        r matches Some(s) ==> s@ == time_text(secs as int),
        -4_000_000_000_000 <= secs <= 4_000_000_000_000 ==> r is Some,
{
    chrono::DateTime::<chrono::Utc>::from_timestamp(secs, 0).map(
        |dt| dt.format("%Y-%m-%d %H:%M:%S").to_string(),
    )
}

/// Renders an epoch-second timestamp the way the read API serves it. Values
/// the calendar library refuses (hundreds of thousands of years away from
/// the epoch) render as the empty string.
pub fn render_timestamp(secs: i64) -> (r: String)
    ensures
        r@ == time_text(secs as int) || r@ == Seq::<char>::empty(),
        -4_000_000_000_000 <= secs <= 4_000_000_000_000 ==> r@ == time_text(secs as int),
{
    match format_utc_seconds(secs) {
        Some(s) => s,
        None => String::new(),
    }
}

} // verus!
