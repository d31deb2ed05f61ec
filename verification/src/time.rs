//! Points in time.
use vstd::prelude::*;

verus! {

/// A point in time (UTC): whole seconds since 1970 and the nanoseconds that follow them. A leap
/// second has the number of the second before it and counts its nanoseconds from 1_000_000_000.
#[derive(Clone, Copy, Debug, PartialEq, Eq, Structural)]
pub struct Timestamp {
    pub secs: i64,
    pub nanos: u32,
}

/// The earliest second of the calendar.
pub const MIN_SECS: i64 = -8334601228800;

/// The latest second of the calendar.
pub const MAX_SECS: i64 = 8210266876799;

impl Timestamp {
    /// This time comes before the other one.
    pub open spec fn before(self, other: Timestamp) -> bool {
        self.secs < other.secs || (self.secs == other.secs && self.nanos < other.nanos)
    }

    /// The time lies within the calendar and in no leap second.
    pub open spec fn is_clock_time(self) -> bool {
        MIN_SECS <= self.secs <= MAX_SECS && self.nanos < 1_000_000_000
    }

    pub fn is_before(&self, other: &Timestamp) -> (r: bool)
        ensures
            r == self.before(*other),
    {
        self.secs < other.secs || (self.secs == other.secs && self.nanos < other.nanos)
    }
}

/// The point in time that a text in the format of RFC 2822 says, as seconds and nanoseconds;
/// nothing for another text.
pub uninterp spec fn rfc2822_instant(text: Seq<char>) -> Option<(i64, u32)>;

/// `DateTime::parse_from_rfc2822`, with the time taken in UTC.
#[verifier::external_body]
fn parse_instant(text: &str) -> (r: Option<(i64, u32)>)
    ensures
        r == rfc2822_instant(text@),
{
    match chrono::DateTime::parse_from_rfc2822(text) {
        Ok(time) => {
            let utc = time.with_timezone(&chrono::Utc).naive_utc().and_utc();
            Some((utc.timestamp(), utc.timestamp_subsec_nanos()))
        },
        Err(_) => None,
    }
}

/// `DateTime` minus `Duration::hours`: the time so many hours earlier. It panics when the result
/// lies outside of the calendar, which `requires` rules out.
#[verifier::external_body]
fn minus_hours(secs: i64, nanos: u32, hours: i64) -> (r: (i64, u32))
    requires
        0 <= hours <= 1_000_000,
        MIN_SECS + 3600 * hours <= secs <= MAX_SECS,
        nanos < 1_000_000_000,
    ensures
        r.0 == secs - 3600 * hours,
        r.1 == nanos,
{
    let time: chrono::DateTime<chrono::Utc> = chrono::DateTime::from_timestamp(secs, nanos).unwrap();
    let earlier = time - chrono::Duration::hours(hours);
    (earlier.timestamp(), earlier.timestamp_subsec_nanos())
}

/// The point in time that a text in the format of RFC 2822 says.
pub open spec fn rfc2822_time(text: Seq<char>) -> Option<Timestamp> {
    match rfc2822_instant(text) {
        Some((secs, nanos)) => Some(Timestamp { secs, nanos }),
        None => None,
    }
}

/// Reads a time in the format of RFC 2822.
pub fn parse_rfc2822(text: &str) -> (r: Option<Timestamp>)
    ensures
        r == rfc2822_time(text@),
{
    match parse_instant(text) {
        Some((secs, nanos)) => Some(Timestamp { secs, nanos }),
        None => None,
    }
}

/// The same time of the day before.
pub open spec fn day_before(time: Timestamp) -> Timestamp {
    Timestamp { secs: (time.secs - 86400) as i64, nanos: time.nanos }
}

/// The same time of the day before.
pub fn one_day_before(time: Timestamp) -> (r: Timestamp)
    requires
        time.is_clock_time(),
        MIN_SECS + 86400 <= time.secs,
    ensures
        r == day_before(time),
        r.secs == time.secs - 86400,
{
    let (secs, nanos) = minus_hours(time.secs, time.nanos, 24);
    Timestamp { secs, nanos }
}

/// Times are ordered: of two different ones exactly one comes before the other, none comes before
/// itself, and what comes before a second one comes before all that this one comes before. A time of
/// an earlier second always comes first.
pub proof fn law_times_are_ordered(a: Timestamp, b: Timestamp, c: Timestamp)
    ensures
        !a.before(a),
        a != b ==> a.before(b) != b.before(a),
        a.before(b) && b.before(c) ==> a.before(c),
        a.secs < b.secs ==> a.before(b),
        a.secs == b.secs && a.nanos < b.nanos ==> a.before(b),
{
}

} // verus!
