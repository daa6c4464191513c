use vstd::prelude::*;

verus! {

/// The earliest second (since 1970-01-01 00:00:00 UTC) that chrono's date type can hold:
/// the first second of the year -262143.
pub const EARLIEST_SECS: i64 = -8334601228800i64;

/// The last second that chrono's date type can hold: the last second of the year 262142.
pub const LATEST_SECS: i64 = 8210266876799i64;

/// A point in time in UTC: whole seconds since 1970-01-01 00:00:00 and the nanoseconds after them.
#[derive(Debug, Clone, Copy)]
pub struct Timestamp {
    pub secs: i64,
    pub nanos: u32,
}

/// Whether a number of seconds since 1970 names a time that chrono can hold.
pub open spec fn secs_in_range(secs: int) -> bool {
    EARLIEST_SECS <= secs <= LATEST_SECS
}

impl Timestamp {
    /// The time can be held by chrono and its nanoseconds are below one second.
    pub open spec fn in_range(&self) -> bool {
        secs_in_range(self.secs as int) && self.nanos < 1_000_000_000
    }

    /// Milliseconds since 1970, as chrono's `timestamp_millis` counts them.
    pub open spec fn millis(&self) -> int {
        self.secs * 1000 + self.nanos / 1_000_000
    }

    /// The order of chrono's `DateTime`: by seconds, then by nanoseconds.
    pub open spec fn is_after(&self, other: Timestamp) -> bool {
        self.secs > other.secs || (self.secs == other.secs && self.nanos > other.nanos)
    }

    /// Whether the time is after `other`.
    pub fn later_than(&self, other: &Timestamp) -> (r: bool)
        ensures
            r == self.is_after(*other),
    {
        self.secs > other.secs || (self.secs == other.secs && self.nanos > other.nanos)
    }

    /// Milliseconds since 1970 (chrono's `DateTime::timestamp_millis`).
    pub fn timestamp_millis(&self) -> (ms: i64)
        requires
            self.in_range(),
        ensures
            ms == self.millis(),
    {
        self.secs * 1000 + (self.nanos / 1_000_000) as i64
    }

    /// The time `hours` hours later, where chrono can still hold it (`DateTime + Duration`).
    pub fn plus_hours(&self, hours: u32) -> (r: Option<Timestamp>)
        requires
            self.in_range(),
        ensures
            r is Some <==> secs_in_range(self.secs + hours * 3600),
            r matches Some(t) ==> t.secs == self.secs + hours * 3600 && t.nanos == self.nanos
                && t.in_range(),
    {
        let delta = hours as i64 * 3600;
        if self.secs <= LATEST_SECS - delta {
            Some(Timestamp { secs: self.secs + delta, nanos: self.nanos })
        } else {
            None
        }
    }
}

/// Whether chrono can hold the time that many seconds after 1970.
pub fn timestamp_in_range(secs: i64) -> (r: bool)
    ensures
        r == secs_in_range(secs as int),
{
    EARLIEST_SECS <= secs && secs <= LATEST_SECS
}

/// The current time (`chrono::Utc::now`, which fails on a system clock set before 1970). Of its
/// value it is stated only that chrono can hold it, with nanoseconds below one second, and that
/// it is not before 1970; which time it is depends on the clock.
#[verifier::external_body]
pub(crate) fn now_utc() -> (t: Timestamp)
    ensures
        t.in_range(),
        t.secs >= 0,
{
    let now = chrono::Utc::now();
    Timestamp { secs: now.timestamp(), nanos: now.timestamp_subsec_nanos() }
}

/// How chrono's `DateTime<Utc>` displays a time (`to_string`), such as
/// "2021-03-04 05:06:07.123456789 UTC".
pub uninterp spec fn utc_display(secs: i64, nanos: u32) -> Seq<char>;

/// How chrono formats the time `secs` seconds and `nanos` nanoseconds after 1970 with a
/// strftime-style pattern.
pub uninterp spec fn chrono_format(secs: i64, nanos: u32, pattern: Seq<char>) -> Seq<char>;

/// The pattern in which a confirmation mail gives its expiry, such as
/// "05:06 AM Thursday, 4 March, 2021".
pub open spec fn expiry_pattern() -> Seq<char> {
    "%I:%M %p %A, %-d %B, %C%y"@
}

/// The text of a time as chrono's `DateTime<Utc>` displays it.
#[verifier::external_body]
pub(crate) fn utc_text(t: &Timestamp) -> (text: String)
    requires
        t.in_range(),
    ensures
        text@ == utc_display(t.secs, t.nanos),
{
    chrono::DateTime::from_timestamp(t.secs, t.nanos).unwrap().to_string()
}

/// A time as chrono formats it with a pattern (`DateTime::format`, then `to_string`). The
/// pattern is the expiry pattern, whose every item chrono knows: with an unknown item
/// `to_string` would panic.
#[verifier::external_body]
pub(crate) fn format_time(t: &Timestamp, pattern: &str) -> (text: String)
    requires
        t.in_range(),
        pattern@ == expiry_pattern(),
    ensures
        text@ == chrono_format(t.secs, t.nanos, pattern@),
{
    chrono::DateTime::from_timestamp(t.secs, t.nanos).unwrap().format(pattern).to_string()
}

} // verus!
