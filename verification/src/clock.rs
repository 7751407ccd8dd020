//! Calendar text for points in time, computed by chrono.

use vstd::prelude::*;
use crate::text::text_of;

verus! {

/// Layout of a backup file's time stamp: `20240131_235959`.
pub open spec fn compact_layout() -> Seq<char> {
    "%Y%m%d_%H%M%S"@
}

/// Layout of the time stamps stored with records: `2024-01-31 23:59:59`.
pub open spec fn record_layout() -> Seq<char> {
    "%Y-%m-%d %H:%M:%S"@
}

/// Layout of a calendar day: `2024-01-31`.
pub open spec fn day_layout() -> Seq<char> {
    "%Y-%m-%d"@
}

/// The layouts this library formats with.
pub open spec fn known_layout(layout: Seq<char>) -> bool {
    layout == compact_layout() || layout == record_layout() || layout == day_layout()
}

/// The text chrono writes for the UTC time `secs` seconds after the Unix epoch
/// in the given layout; `None` for a time outside the range chrono represents.
pub uninterp spec fn utc_text(secs: i64, layout: Seq<char>) -> Option<Seq<char>>;

/// The seconds since the Unix epoch that chrono reads out of RFC 3339 text;
/// `None` where chrono rejects the text.
pub uninterp spec fn rfc3339_seconds(text: Seq<char>) -> Option<i64>;

/// The text, as `2024-01-31`, of the day that lies `back` days before the
/// calendar day `year`-`month`-`day`, as chrono computes it; `None` where
/// there is no such calendar day or the result is outside chrono's range.
pub uninterp spec fn earlier_day_text(year: i32, month: u32, day: u32, back: i64) -> Option<Seq<char>>;

/// Calls `chrono::DateTime::from_timestamp` and, on the time it gives,
/// `DateTime::format`. The result is only named. Formatting panics on a layout
/// chrono cannot read, so only the layouts of this module are admitted.
#[verifier::external_body]
pub(crate) fn format_utc(secs: i64, layout: &str) -> (r: Option<String>)
    requires
        known_layout(layout@),
    ensures
        text_of(r) == utc_text(secs, layout@),
{
    match chrono::DateTime::from_timestamp(secs, 0) {
        Some(t) => Some(t.format(layout).to_string()),
        None => None,
    }
}

/// Calls `chrono::DateTime::parse_from_rfc3339` and, on success,
/// `DateTime::timestamp`. The result is only named.
#[verifier::external_body]
pub(crate) fn parse_rfc3339(text: &str) -> (r: Option<i64>)
    ensures
        r == rfc3339_seconds(text@),
{
    match chrono::DateTime::parse_from_rfc3339(text) {
        Ok(t) => Some(t.timestamp()),
        Err(_) => None,
    }
}

/// Calls `chrono::NaiveDate::from_ymd_opt`, `TimeDelta::try_days` and
/// `NaiveDate::checked_sub_signed`, and writes the day out with its `Display`.
/// The result is only named.
#[verifier::external_body]
pub(crate) fn earlier_day(year: i32, month: u32, day: u32, back: i64) -> (r: Option<String>)
    ensures
        text_of(r) == earlier_day_text(year, month, day, back),
{
    let date = chrono::NaiveDate::from_ymd_opt(year, month, day)?;
    let span = chrono::TimeDelta::try_days(back)?;
    Some(date.checked_sub_signed(span)?.to_string())
}

/// Reads the system clock with `std::time::SystemTime::now`, has chrono make
/// a `DateTime<Utc>` of it with its `From<SystemTime>`, and calls
/// `DateTime::timestamp`: the current time in seconds since the Unix epoch,
/// negative for a clock set before 1970. All that is claimed of it is that it
/// lies in the range chrono represents, some 262 thousand years to either
/// side, since chrono made a `DateTime` of it.
#[verifier::external_body]
pub(crate) fn utc_now() -> (now: i64)
    ensures
        forall|layout: Seq<char>| known_layout(layout) ==> (#[trigger] utc_text(now, layout)) is Some,
{
    chrono::DateTime::<chrono::Utc>::from(std::time::SystemTime::now()).timestamp()
}

/// The time stamp of `secs` as it is stored with records, `2024-01-31 23:59:59`.
pub fn record_stamp(secs: i64) -> (r: Option<String>)
    ensures
        text_of(r) == utc_text(secs, record_layout()),
{
    format_utc(secs, "%Y-%m-%d %H:%M:%S")
}

/// The calendar day of `secs`, `2024-01-31`.
pub fn day_stamp(secs: i64) -> (r: Option<String>)
    ensures
        text_of(r) == utc_text(secs, day_layout()),
{
    format_utc(secs, "%Y-%m-%d")
}

/// The time stamp of `secs` as backup file names carry it, `20240131_235959`.
pub fn compact_stamp(secs: i64) -> (r: Option<String>)
    ensures
        text_of(r) == utc_text(secs, compact_layout()),
{
    format_utc(secs, "%Y%m%d_%H%M%S")
}

/// Whether a text is the time stamp of some point in time, as it is stored
/// with records.
pub open spec fn is_record_stamp(stamp: Seq<char>) -> bool {
    exists|secs: i64| utc_text(secs, record_layout()) == Some(stamp)
}

/// The current time as it is stored with records, `2024-01-31 23:59:59`.
pub fn current_record_stamp() -> (stamp: String)
    ensures
        is_record_stamp(stamp@),
{
    let now = utc_now();
    let stamp = record_stamp(now);
    assert(known_layout(record_layout()));
    assert(utc_text(now, record_layout()) == Some(stamp->Some_0@));
    stamp.unwrap()
}

} // verus!
