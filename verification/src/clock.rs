//! Readings of the system clock, through `chrono`.

use chrono::{Datelike, Timelike};
use vstd::prelude::*;

verus! {

/// `chrono::Local::now()` read with `Timelike::hour`: the hour of the local
/// time. The contract claims only that it lies between 0 and 23.
#[verifier::external_body]
pub(crate) fn local_hour() -> (h: u32)
    ensures
        h < 24,
{
    chrono::Local::now().hour()
}

/// `chrono::Utc::now()` written with `DateTime::to_rfc3339`. The reading
/// depends on the time of the call; the contract claims only that it is the
/// text chrono writes for some time (`rfc3339_at`).
#[verifier::external_body]
pub(crate) fn utc_now_rfc3339() -> (s: String)
    ensures
        exists|secs: i64, nanos: u32| rfc3339_at(secs, nanos) == Some(s@),
{
    chrono::Utc::now().to_rfc3339()
}

/// The calendar fields of the present UTC time.
pub struct UtcFields {
    pub year: i32,
    pub month: u32,
    pub day: u32,
    pub hour: u32,
    pub minute: u32,
    pub second: u32,
    pub nanosecond: u32,
}

/// `chrono::Utc::now()` read with `Datelike` and `Timelike`: the fields of
/// the present UTC time. The contract claims only the ranges that chrono
/// documents (a nanosecond count from 10^9 marks a leap second).
#[verifier::external_body]
pub(crate) fn utc_now_fields() -> (f: UtcFields)
    ensures
        1 <= f.month <= 12,
        1 <= f.day <= 31,
        f.hour < 24,
        f.minute < 60,
        f.second < 60,
        f.nanosecond < 2_000_000_000,
{
    let now = chrono::Utc::now();
    UtcFields {
        year: now.year(),
        month: now.month(),
        day: now.day(),
        hour: now.hour(),
        minute: now.minute(),
        second: now.second(),
        nanosecond: now.nanosecond(),
    }
}

/// What chrono writes for the UTC time `secs` seconds and `nanos`
/// nanoseconds after the Unix epoch (`DateTime::<Utc>::from_timestamp`, then
/// `to_rfc3339`), or `None` where chrono holds no such time.
pub uninterp spec fn rfc3339_at(secs: i64, nanos: u32) -> Option<Seq<char>>;

/// `DateTime::<Utc>::from_timestamp(secs, nanos)` written with `to_rfc3339`.
/// The text is a function of the two numbers alone; the contract names it.
#[verifier::external_body]
pub(crate) fn format_rfc3339_at(secs: i64, nanos: u32) -> (r: Option<String>)
    ensures
        match r {
            Some(t) => rfc3339_at(secs, nanos) == Some(t@),
            None => rfc3339_at(secs, nanos) is None,
        },
{
    match chrono::DateTime::from_timestamp(secs, nanos) {
        Some(d) => Some(d.to_rfc3339()),
        None => None,
    }
}

} // verus!
