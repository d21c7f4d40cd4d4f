//! Conversions between Unix timestamps and the textual times that the chat
//! shows to users and that the message store keeps.

use vstd::prelude::*;

verus! {

/// The earliest Unix timestamp the calendar supports (-9999-01-01 00:00:00 UTC).
pub const MIN_UNIX_TIMESTAMP: i64 = -377705116800;

/// The latest Unix timestamp the calendar supports (9999-12-31 23:59:59 UTC).
pub const MAX_UNIX_TIMESTAMP: i64 = 253402300799;

/// The largest magnitude, in seconds, of an offset from UTC (25:59:59).
pub const MAX_OFFSET_SECONDS: i32 = 93599;

/// Whether `timestamp` names an instant of the supported calendar range.
pub open spec fn timestamp_in_range(timestamp: int) -> bool {
    MIN_UNIX_TIMESTAMP <= timestamp <= MAX_UNIX_TIMESTAMP
}

/// Whether `offset_seconds` is a valid offset from UTC.
pub open spec fn offset_in_range(offset_seconds: i32) -> bool {
    -MAX_OFFSET_SECONDS <= offset_seconds <= MAX_OFFSET_SECONDS
}

/// Whether the wall-clock time of `timestamp` at `offset_seconds` is still a
/// date of the supported calendar range.
pub open spec fn local_time_in_range(timestamp: int, offset_seconds: i32) -> bool {
    timestamp_in_range(timestamp + offset_seconds)
}

/// The format description of the times shown to users: to the minute.
pub open spec fn display_description() -> Seq<char> {
    "[year]-[month]-[day] [hour]:[minute]"@
}

/// The format description of the times the message store keeps: to the
/// second, as SQLite's `datetime` writes them.
pub open spec fn stored_description() -> Seq<char> {
    "[year]-[month]-[day] [hour]:[minute]:[second]"@
}

/// The format descriptions the library hands to `time`; both are well-formed
/// descriptions of a calendar date and a time of day.
pub open spec fn known_description(description: Seq<char>) -> bool {
    description == display_description() || description == stored_description()
}

/// The text `time` formats for the instant `timestamp` seen at the offset
/// `offset_seconds`, with the format description `description`.
pub uninterp spec fn formatted_text(timestamp: i64, offset_seconds: i32, description: Seq<char>) -> Seq<char>;

/// The Unix timestamp of the UTC date-time that `time` parses from `text`
/// with the format description `description`, or `None` where the text does
/// not match it.
pub uninterp spec fn parsed_seconds(text: Seq<char>, description: Seq<char>) -> Option<i64>;

/// The Unix timestamp of a stored time text, `None` where it is not one.
pub open spec fn stored_seconds(text: Seq<char>) -> Option<i64> {
    parsed_seconds(text, stored_description())
}

/// The Unix timestamp `time` gives for a date-time.
pub uninterp spec fn unix_seconds(date_time: time::OffsetDateTime) -> i64;

#[verifier::external_type_specification]
#[verifier::external_body]
pub struct ExOffsetDateTime(time::OffsetDateTime);

/// `time::OffsetDateTime::unix_timestamp`: the instant of a date-time as a Unix
/// timestamp, named `unix_seconds`. Its local date lies in the supported range
/// and its offset is a valid one, so the timestamp lies in the range widened
/// by one offset.
pub assume_specification[ time::OffsetDateTime::unix_timestamp ](date_time: time::OffsetDateTime) -> (timestamp: i64)
    ensures
        timestamp == unix_seconds(date_time),
        MIN_UNIX_TIMESTAMP - MAX_OFFSET_SECONDS <= timestamp <= MAX_UNIX_TIMESTAMP + MAX_OFFSET_SECONDS,
;

/// Formats `timestamp` at `offset_seconds` with `time`: builds the UTC
/// date-time with `OffsetDateTime::from_unix_timestamp` (which fails exactly
/// outside the supported range), moves it to the offset with `to_offset`
/// (which panics when the local date-time leaves the range, excluded by
/// `requires`), reads `description` with `format_description::parse` and
/// formats with `format`. The text itself is named, not stated; it begins
/// with the year, padded to at least four digits, and so is at least sixteen
/// characters long.
#[verifier::external_body]
fn format_at_offset(timestamp: i64, offset_seconds: i32, description: &str) -> (text: Option<String>)
    requires
        offset_in_range(offset_seconds),
        timestamp_in_range(timestamp as int) ==> local_time_in_range(timestamp as int, offset_seconds),
        known_description(description@),
    ensures
        text is Some <==> timestamp_in_range(timestamp as int),
        text matches Some(t) ==> t@ == formatted_text(timestamp, offset_seconds, description@),
        text matches Some(t) ==> t@.len() >= 16,
{
    let offset = time::UtcOffset::from_whole_seconds(offset_seconds).expect("offset in range");
    match time::OffsetDateTime::from_unix_timestamp(timestamp) {
        Ok(utc) => {
            let format = time::format_description::parse(description).expect("known description");
            Some(utc.to_offset(offset).format(&format).expect("complete date-time"))
        },
        Err(_) => None,
    }
}

/// Parses `text` as a UTC date-time with `time::UtcDateTime::parse` and the
/// format description `description` (read with `format_description::parse`),
/// and gives its Unix timestamp. A parsed date-time lies in the supported range.
#[verifier::external_body]
fn parse_utc_seconds(text: &str, description: &str) -> (seconds: Option<i64>)
    requires
        known_description(description@),
    ensures
        seconds == parsed_seconds(text@, description@),
        seconds matches Some(t) ==> timestamp_in_range(t as int),
{
    let format = time::format_description::parse(description).expect("known description");
    match time::UtcDateTime::parse(text, &format) {
        Ok(utc) => Some(utc.unix_timestamp()),
        Err(_) => None,
    }
}

/// Reads a stored time text.
fn parse_stored_time(text: &str) -> (seconds: Option<i64>)
    ensures
        seconds == stored_seconds(text@),
        seconds matches Some(t) ==> timestamp_in_range(t as int),
{
    let description = "[year]-[month]-[day] [hour]:[minute]:[second]";
    parse_utc_seconds(text, description)
}

/// The Unix timestamp of a date-time.
pub fn get_timestamp(sys_time: time::OffsetDateTime) -> (timestamp: i64)
    ensures
        timestamp == unix_seconds(sys_time),
        MIN_UNIX_TIMESTAMP - MAX_OFFSET_SECONDS <= timestamp <= MAX_UNIX_TIMESTAMP + MAX_OFFSET_SECONDS,
{
    sys_time.unix_timestamp()
}

/// What `get_string_time` shows for `timestamp` at `offset_seconds`.
pub open spec fn spec_string_time(timestamp: i64, offset_seconds: i32) -> Seq<char> {
    if timestamp_in_range(timestamp as int) {
        formatted_text(timestamp, offset_seconds, display_description())
    } else {
        "Invalid date"@
    }
}

/// The local wall-clock time of `timestamp`, to the minute, or
/// `"Invalid date"` when the timestamp is outside the calendar range.
pub fn get_string_time(timestamp: i64, offset_seconds: i32) -> (text: String)
    requires
        offset_in_range(offset_seconds),
        timestamp_in_range(timestamp as int) ==> local_time_in_range(timestamp as int, offset_seconds),
    ensures
        text@ == spec_string_time(timestamp, offset_seconds),
        timestamp_in_range(timestamp as int) ==> text@.len() >= 16,
        timestamp_in_range(timestamp as int) ==> text@ == formatted_text(
            timestamp,
            offset_seconds,
            "[year]-[month]-[day] [hour]:[minute]"@,
        ),
        !timestamp_in_range(timestamp as int) ==> text@ == "Invalid date"@,
{
    let description = "[year]-[month]-[day] [hour]:[minute]";
    match format_at_offset(timestamp, offset_seconds, description) {
        Some(text) => text,
        None => {
            let invalid = "Invalid date";
            invalid.to_string()
        },
    }
}

/// A timestamp of the calendar range is shown as `time` formats it, to the
/// minute, at exactly the offset asked for, whatever that offset is (whole
/// hours or not, east or west of UTC).
pub proof fn lemma_string_time_is_local_time(timestamp: i64, offset_seconds: i32)
    requires
        -377705116800 <= timestamp <= 253402300799,
    ensures
        spec_string_time(timestamp, offset_seconds) == formatted_text(
            timestamp,
            offset_seconds,
            "[year]-[month]-[day] [hour]:[minute]"@,
        ),
{
}

/// A timestamp outside the calendar range is shown as `Invalid date`, at any offset.
pub proof fn lemma_string_time_out_of_range(timestamp: i64, offset_seconds: i32)
    requires
        timestamp < -377705116800 || timestamp > 253402300799,
    ensures
        spec_string_time(timestamp, offset_seconds) == "Invalid date"@,
{
}

/// Whether `convert_str_time_to_timestamp` may be called on `text` with
/// `offset_seconds`: the offset is valid and, when the text parses, its
/// instant still has a wall-clock date in range at that offset.
pub open spec fn conversion_admissible(text: Seq<char>, offset_seconds: i32) -> bool {
    &&& offset_in_range(offset_seconds)
    &&& stored_seconds(text) matches Some(t) ==> local_time_in_range(t as int, offset_seconds)
}

/// The Unix timestamp of a stored UTC time text such as `2024-03-05 13:07:00`,
/// or `None` when the text is not such a time. The instant is the same at
/// every offset: the offset only decides whether the local wall-clock date
/// stays in the calendar range, which `requires` demands.
pub fn convert_str_time_to_timestamp(time_str: &str, offset_seconds: i32) -> (timestamp: Option<i64>)
    requires
        conversion_admissible(time_str@, offset_seconds),
    ensures
        timestamp == stored_seconds(time_str@),
{
    match parse_stored_time(time_str) {
        Some(seconds) => Some(seconds),
        None => None,
    }
}

/// How a stored time text reads at a given offset.
#[derive(PartialEq, Eq, Structural, Clone, Copy, Debug)]
pub enum StoredTime {
    /// The text names the instant with this Unix timestamp.
    At(i64),
    /// The text is not a time of the stored form.
    Unreadable,
    /// The text is a time whose wall-clock date leaves the calendar range at the offset.
    OutsideLocalRange,
}

/// What `read_stored_time` gives for `text` at `offset_seconds`.
pub open spec fn spec_stored_time(text: Seq<char>, offset_seconds: i32) -> StoredTime {
    match stored_seconds(text) {
        Some(t) => if local_time_in_range(t as int, offset_seconds) {
            StoredTime::At(t)
        } else {
            StoredTime::OutsideLocalRange
        },
        None => StoredTime::Unreadable,
    }
}

/// Reads a stored time text at `offset_seconds` for any text: where
/// `convert_str_time_to_timestamp` may be called, it is called; where the
/// wall-clock date would leave the calendar range, that is reported instead.
pub fn read_stored_time(time_str: &str, offset_seconds: i32) -> (read: StoredTime)
    requires
        offset_in_range(offset_seconds),
    ensures
        read == spec_stored_time(time_str@, offset_seconds),
{
    match parse_stored_time(time_str) {
        Some(seconds) => {
            let local = seconds as i128 + offset_seconds as i128;
            if MIN_UNIX_TIMESTAMP as i128 <= local && local <= MAX_UNIX_TIMESTAMP as i128 {
                match convert_str_time_to_timestamp(time_str, offset_seconds) {
                    Some(t) => StoredTime::At(t),
                    None => StoredTime::Unreadable,
                }
            } else {
                StoredTime::OutsideLocalRange
            }
        },
        None => StoredTime::Unreadable,
    }
}

/// A stored time text names the same instant whatever offset it is read at.
pub proof fn lemma_stored_time_ignores_offset(text: Seq<char>, first: i32, second: i32)
    requires
        conversion_admissible(text, first),
        conversion_admissible(text, second),
    ensures
        spec_stored_time(text, first) == spec_stored_time(text, second),
{
}

} // verus!
