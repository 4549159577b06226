//! Fresh identifiers and instants of time.

use crate::text::opt_text;
use vstd::prelude::*;

verus! {

/// First second that the calendar of `chrono` holds, counted from 1970.
pub const FIRST_SECOND: i64 = -8_334_601_228_800;

/// Last second that the calendar of `chrono` holds, counted from 1970.
pub const LAST_SECOND: i64 = 8_210_266_876_799;

/// Nanoseconds in a second.
pub const NANOS_PER_SECOND: u32 = 1_000_000_000;

/// A point in time: whole seconds since 1970 in UTC, and nanoseconds on top.
#[derive(Clone, Copy)]
pub struct Instant {
    pub secs: i64,
    pub nanos: u32,
}

impl Instant {
    /// Whether the calendar holds the instant and its nanoseconds make less than
    /// a second.
    pub open spec fn valid(self) -> bool {
        &&& FIRST_SECOND <= self.secs <= LAST_SECOND
        &&& self.nanos < NANOS_PER_SECOND
    }
}

/// Whether a character is a lower-case hexadecimal digit.
pub open spec fn is_hex(c: char) -> bool {
    '0' <= c <= '9' || 'a' <= c <= 'f'
}

/// Whether a text is a random UUID in its hyphenated lower-case form.
pub open spec fn is_uuid(s: Seq<char>) -> bool {
    &&& s.len() == 36
    &&& forall|i: int|
        0 <= i < 36 ==> (if i == 8 || i == 13 || i == 18 || i == 23 {
            #[trigger] s[i] == '-'
        } else {
            is_hex(s[i])
        })
    &&& s[14] == '4'
    &&& s[19] == '8' || s[19] == '9' || s[19] == 'a' || s[19] == 'b'
}

/// The RFC 3339 text of an instant in UTC, as `chrono` writes it; none where the
/// calendar does not hold the instant.
pub uninterp spec fn utc_text(secs: i64, nanos: u32) -> Option<Seq<char>>;

/// Whole seconds from the instant that an RFC 3339 text stands for to another
/// one, as `chrono` counts them; none where the text is not of that form or the
/// calendar does not hold the instant.
pub uninterp spec fn seconds_between(text: Seq<char>, secs: i64, nanos: u32) -> Option<i64>;

/// The text `YYYYmmdd_HHMMSS` of an instant in UTC, as `chrono` writes it; none
/// where the calendar does not hold the instant.
pub uninterp spec fn file_stamp(secs: i64) -> Option<Seq<char>>;

/// `uuid::Uuid::new_v4` draws a random UUID, and its `to_string` writes it with
/// hyphens in lower case. Which one comes is left to chance.
#[verifier::external_body]
pub(crate) fn new_id() -> (r: String)
    ensures
        is_uuid(r@),
{
    uuid::Uuid::new_v4().to_string()
}

/// `chrono::Utc::now` reads the clock. Whatever the time is, it lies between
/// 1970 and the end of the calendar, with less than a second of nanoseconds.
#[verifier::external_body]
pub(crate) fn clock() -> (r: Instant)
    ensures
        r.valid(),
        r.secs >= 0,
{
    let time = chrono::Utc::now();
    Instant { secs: time.timestamp(), nanos: time.timestamp_subsec_nanos() }
}

/// `chrono::DateTime::to_rfc3339` writes an instant in UTC. It does so for every
/// instant that `from_timestamp` takes, and that takes every valid one.
#[verifier::external_body]
pub(crate) fn write_utc(at: Instant) -> (r: Option<String>)
    ensures
        opt_text(r) == utc_text(at.secs, at.nanos),
        at.valid() ==> r is Some,
{
    chrono::DateTime::from_timestamp(at.secs, at.nanos).map(|time| time.to_rfc3339())
}

/// `chrono::DateTime::parse_from_rfc3339` reads the text, and
/// `TimeDelta::num_seconds` counts the seconds from there to `at`.
#[verifier::external_body]
pub(crate) fn seconds_since(text: &str, at: Instant) -> (r: Option<i64>)
    ensures
        r == seconds_between(text@, at.secs, at.nanos),
{
    let now = chrono::DateTime::from_timestamp(at.secs, at.nanos)?;
    let then = chrono::DateTime::parse_from_rfc3339(text).ok()?;
    Some((now - then.with_timezone(&chrono::Utc)).num_seconds())
}

/// `chrono::DateTime::format` writes an instant in UTC by the pattern
/// `%Y%m%d_%H%M%S`. It does so for every instant that `from_timestamp` takes, and
/// that takes every second of the calendar.
#[verifier::external_body]
pub(crate) fn write_file_stamp(secs: i64) -> (r: Option<String>)
    ensures
        opt_text(r) == file_stamp(secs),
        FIRST_SECOND <= secs <= LAST_SECOND ==> r is Some,
{
    chrono::DateTime::from_timestamp(secs, 0).map(|time| time.format("%Y%m%d_%H%M%S").to_string())
}

/// The RFC 3339 text of a valid instant.
pub fn rfc3339(at: Instant) -> (r: String)
    requires
        at.valid(),
    ensures
        Some(r@) == utc_text(at.secs, at.nanos),
{
    match write_utc(at) {
        Some(text) => text,
        None => String::new(),
    }
}

/// The text of the file stamp of a valid instant.
pub fn stamp_text(at: Instant) -> (r: String)
    requires
        at.valid(),
    ensures
        Some(r@) == file_stamp(at.secs),
{
    match write_file_stamp(at.secs) {
        Some(text) => text,
        None => String::new(),
    }
}

/// Whether a text is the RFC 3339 text of some instant since 1970.
pub open spec fn is_time(s: Seq<char>) -> bool {
    exists|secs: i64, nanos: u32|
        secs >= 0 && nanos < NANOS_PER_SECOND && #[trigger] utc_text(secs, nanos) == Some(s)
}

/// The RFC 3339 text of the present time.
pub fn now_text() -> (r: String)
    ensures
        is_time(r@),
{
    rfc3339(clock())
}

} // verus!
