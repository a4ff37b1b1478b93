//! Points in time as text.
//!
//! The calendar arithmetic is that of the `chrono` crate, which is called
//! here and not verified.

use vstd::prelude::*;

verus! {

/// The RFC 3339 text, in UTC and to the second, of the instant `secs` seconds
/// after the epoch, or `None` where `chrono` cannot represent the instant.
pub uninterp spec fn utc_text(secs: i64) -> Option<Seq<char>>;

/// `chrono::DateTime::from_timestamp` with no nanoseconds, then
/// `chrono::DateTime::to_rfc3339_opts` on the instant it made, with
/// `SecondsFormat::Secs` and `Z` for the offset. The first returns `None`
/// only for seconds outside `chrono`'s years, which lie hundreds of
/// thousands of years from the epoch on either side.
#[verifier::external_body]
pub(crate) fn chrono_utc_text(secs: i64) -> (text: Option<String>)
    ensures
        text.deep_view() == utc_text(secs),
        0 <= secs <= u32::MAX ==> text is Some,
{
    chrono::DateTime::from_timestamp(secs, 0).map(
        |instant| instant.to_rfc3339_opts(chrono::SecondsFormat::Secs, true),
    )
}

/// The build time of a signature database as text.
pub fn format_db_time(secs: u32) -> (text: String)
    ensures
        utc_text(secs as i64) == Some(text@),
{
    match chrono_utc_text(secs as i64) {
        Some(text) => text,
        None => unreached(),
    }
}

} // verus!
