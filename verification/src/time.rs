use vstd::prelude::*;
use chrono::TimeZone;

verus! {

/// A time as git records it: seconds since the Unix epoch, and the offset of
/// the recorder's time zone from UTC in minutes.
#[derive(Clone, Copy, Debug, PartialEq, Eq, Structural)]
pub struct GitTime {
    pub seconds: i64,
    pub offset_minutes: i32,
}

/// A point in time with a fixed offset from UTC: seconds since the Unix
/// epoch, and the offset in seconds (a `chrono::DateTime<FixedOffset>`).
#[derive(Clone, Copy, Debug, PartialEq, Eq, Structural)]
pub struct DateTimeValue {
    pub timestamp: i64,
    pub offset_seconds: i32,
}

/// The earliest timestamp chrono can represent (January 1 of year -262143, that is 262144 BCE, 00:00:00 UTC).
pub open spec fn min_timestamp() -> int {
    -8_334_601_228_800
}

/// The latest timestamp chrono can represent (December 31, 262142 CE, 23:59:59 UTC).
pub open spec fn max_timestamp() -> int {
    8_210_266_876_799
}

/// chrono can represent the instant `secs` seconds after the Unix epoch.
pub open spec fn timestamp_in_range(secs: i64) -> bool {
    min_timestamp() <= secs <= max_timestamp()
}

/// chrono accepts `secs` as the offset of a fixed time zone.
pub open spec fn offset_in_range(secs: int) -> bool {
    -86_400 < secs < 86_400
}

/// A value that chrono can hold as a `DateTime<FixedOffset>`.
pub open spec fn valid_date_time(v: DateTimeValue) -> bool {
    timestamp_in_range(v.timestamp) && offset_in_range(v.offset_seconds as int)
}

/// The time with a fixed offset that a git time denotes, when there is one:
/// none when the offset in seconds overflows an `i32` or is not a valid
/// offset, or when the timestamp is out of chrono's range.
pub open spec fn fixed_time_of(t: GitTime) -> Option<DateTimeValue> {
    let offset: int = t.offset_minutes * 60;
    if i32::MIN <= offset <= i32::MAX && offset_in_range(offset) && timestamp_in_range(t.seconds) {
        Some(DateTimeValue { timestamp: t.seconds, offset_seconds: offset as i32 })
    } else {
        None
    }
}

/// chrono represents exactly the timestamps from -8 334 601 228 800 (January
/// 1 of year -262143) to 8 210 266 876 799 (the last second of December 31,
/// 262142), and exactly the fixed offsets strictly within a day either way.
pub proof fn law_chrono_ranges(secs: i64, offset: int)
    ensures
        timestamp_in_range(secs) <==> -8_334_601_228_800 <= secs <= 8_210_266_876_799,
        offset_in_range(offset) <==> -86_400 < offset < 86_400,
{
}

/// A git time has a fixed-offset time exactly when its offset is less than a
/// day (1440 minutes) either way and its timestamp is within chrono's range;
/// that time keeps the timestamp and counts the offset in seconds.
pub proof fn law_fixed_time_domain(t: GitTime)
    ensures
        fixed_time_of(t) is Some <==> (-1440 < t.offset_minutes < 1440 && timestamp_in_range(t.seconds)),
        fixed_time_of(t) matches Some(v) ==> v.timestamp == t.seconds && v.offset_seconds == t.offset_minutes * 60,
{
}

/// How chrono shows a `DateTime<FixedOffset>` (`Display`).
pub uninterp spec fn fixed_date_time_text(timestamp: i64, offset_seconds: i32) -> Seq<char>;

/// How chrono shows a `DateTime<Utc>` (`Display`).
pub uninterp spec fn utc_date_time_text(timestamp: i64) -> Seq<char>;

/// Calls `chrono::FixedOffset::east_opt` and reports whether it gave an offset;
/// its documentation and source accept exactly `-86_400 < secs < 86_400`.
#[verifier::external_body]
fn fixed_offset_exists(secs: i32) -> (r: bool)
    ensures
        r == offset_in_range(secs as int),
{
    chrono::FixedOffset::east_opt(secs).is_some()
}

/// Calls `chrono::DateTime::from_timestamp` with no nanoseconds and reports
/// whether it gave a date-time; its source accepts exactly the timestamps
/// between those of `NaiveDate::MIN` and the last second of `NaiveDate::MAX`.
/// (`TimeZone::timestamp_opt` of a fixed offset is `Single` exactly when this is `Some`.)
#[verifier::external_body]
fn timestamp_exists(secs: i64) -> (r: bool)
    ensures
        r == timestamp_in_range(secs),
{
    chrono::DateTime::from_timestamp(secs, 0).is_some()
}

/// Calls chrono's `Display` of the `DateTime<FixedOffset>` that the two values
/// make; the text is named, not stated.
#[verifier::external_body]
fn fixed_date_time_string(timestamp: i64, offset_seconds: i32) -> (r: String)
    requires
        timestamp_in_range(timestamp),
        offset_in_range(offset_seconds as int),
    ensures
        r@ == fixed_date_time_text(timestamp, offset_seconds),
{
    let offset = chrono::FixedOffset::east_opt(offset_seconds).unwrap();
    offset.timestamp_opt(timestamp, 0).unwrap().to_string()
}

/// Calls chrono's `Display` of `DateTime::<Utc>::from_timestamp_secs(timestamp)`;
/// the text is named, not stated.
#[verifier::external_body]
fn utc_date_time_string(timestamp: i64) -> (r: String)
    requires
        timestamp_in_range(timestamp),
    ensures
        r@ == utc_date_time_text(timestamp),
{
    chrono::DateTime::from_timestamp_secs(timestamp).unwrap().to_string()
}

/// The time with a fixed offset that a git time denotes; `None` for an
/// invalid timestamp or offset.
pub fn fixed_time(t: GitTime) -> (r: Option<DateTimeValue>)
    ensures
        r == fixed_time_of(t),
        r matches Some(v) ==> valid_date_time(v),
{
    let offset: i32 = match t.offset_minutes.checked_mul(60) {
        Some(o) => o,
        None => return None,
    };
    if !fixed_offset_exists(offset) {
        return None;
    }
    if !timestamp_exists(t.seconds) {
        return None;
    }
    Some(DateTimeValue { timestamp: t.seconds, offset_seconds: offset })
}

impl DateTimeValue {
    /// The same instant in UTC.
    pub fn to_utc(&self) -> (r: DateTimeValue)
        ensures
            r == (DateTimeValue { timestamp: self.timestamp, offset_seconds: 0 }),
    {
        DateTimeValue { timestamp: self.timestamp, offset_seconds: 0 }
    }

    /// The same instant in the local time zone, whose offset from UTC at this
    /// instant is `local_offset_seconds` (read from the machine by the caller).
    pub fn to_local(&self, local_offset_seconds: i32) -> (r: DateTimeValue)
        requires
            offset_in_range(local_offset_seconds as int),
        ensures
            r == (DateTimeValue { timestamp: self.timestamp, offset_seconds: local_offset_seconds }),
    {
        DateTimeValue { timestamp: self.timestamp, offset_seconds: local_offset_seconds }
    }

    /// How chrono shows this date-time with its fixed offset.
    pub fn to_display_string(&self) -> (r: String)
        requires
            valid_date_time(*self),
        ensures
            r@ == fixed_date_time_text(self.timestamp, self.offset_seconds),
    {
        fixed_date_time_string(self.timestamp, self.offset_seconds)
    }
}

/// How chrono shows, in UTC, the instant `timestamp` seconds after the Unix
/// epoch; `None` when it is out of chrono's range.
pub fn utc_time_text(timestamp: i64) -> (r: Option<String>)
    ensures
        match r {
            Some(s) => timestamp_in_range(timestamp) && s@ == utc_date_time_text(timestamp),
            None => !timestamp_in_range(timestamp),
        },
{
    if timestamp_exists(timestamp) {
        Some(utc_date_time_string(timestamp))
    } else {
        None
    }
}

} // verus!
