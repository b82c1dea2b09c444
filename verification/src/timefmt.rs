//! Timestamp text for the status sub-resource, computed by `chrono`.

use vstd::prelude::*;

verus! {

/// Largest second count the formatter accepts (1970 through the end of year
/// 9999).
pub const MAX_FORMAT_SECONDS: i64 = 253402300799;

/// The `%Y-%m-%dT%H:%M:%S` rendering of a count of non-leap seconds since
/// the Unix epoch, in UTC. A pure function of the count alone; its value is
/// given only by [`format_utc_timestamp`].
pub uninterp spec fn timestamp_text(secs: int) -> Seq<char>;

/// Relies on chrono's `DateTime::<Utc>::from_timestamp` (the UTC instant a
/// second count denotes; in range it is always `Some`) and on its
/// `%Y-%m-%dT%H:%M:%S` formatting, a fixed numeric rendering of that
/// instant: together a function of the second count alone.
#[verifier::external_body]
pub fn format_utc_timestamp(secs: i64) -> (r: String)
    requires
        0 <= secs <= MAX_FORMAT_SECONDS,
    ensures
        r@ == timestamp_text(secs as int),
{
    match chrono::DateTime::<chrono::Utc>::from_timestamp(secs, 0) {
        Some(dt) => dt.format("%Y-%m-%dT%H:%M:%S").to_string(),
        None => String::new(),
    }
}

} // verus!
