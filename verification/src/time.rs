//! Instants of time: seconds and nanoseconds since the Unix epoch in UTC,
//! restricted to what the calendar can represent, and their formatting.

use vstd::prelude::*;

verus! {

/// An instant as plain numbers: whole seconds since 1970-01-01 00:00:00 UTC
/// and nanoseconds since the last whole second.
pub struct Instant {
    pub secs: i64,
    pub nanos: u32,
}

impl Instant {
    /// Whether `self` lies after `other`.
    pub open spec fn after(self, other: Instant) -> bool {
        self.secs > other.secs || (self.secs == other.secs && self.nanos > other.nanos)
    }

    /// The instant as one number that grows with time: seconds shifted by
    /// 32 bits, plus nanoseconds.
    pub open spec fn ticks(self) -> int {
        self.secs * 0x1_0000_0000 + self.nanos
    }
}

/// Whether the calendar can represent the instant: whether
/// `chrono::DateTime::from_timestamp` returns a date for these numbers.
pub uninterp spec fn representable(secs: i64, nanos: u32) -> bool;

/// The text that `chrono::DateTime::<Utc>::format` gives for a representable
/// instant and a `strftime` pattern.
pub uninterp spec fn formatted(secs: i64, nanos: u32, pattern: Seq<char>) -> Seq<char>;

/// The pattern of the briefing's header: date, hour and minute, marked UTC.
pub open spec fn minute_pattern() -> Seq<char> {
    "%Y-%m-%d %H:%M UTC"@
}

/// The pattern of a listing: date, hour and minute.
pub open spec fn listing_pattern() -> Seq<char> {
    "%Y-%m-%d %H:%M"@
}

/// The pattern of a file name: date and time of day to the second, digits
/// and one underscore only.
pub open spec fn stamp_pattern() -> Seq<char> {
    "%Y%m%d_%H%M%S"@
}

/// `chrono::DateTime::from_timestamp` of chrono, asked only whether it
/// returns a date. The contract names that answer.
#[verifier::external_body]
fn can_represent(secs: i64, nanos: u32) -> (r: bool)
    ensures
        r == representable(secs, nanos),
{
    chrono::DateTime::from_timestamp(secs, nanos).is_some()
}

/// `chrono::Utc::now` of chrono, taken apart by `DateTime::timestamp` and
/// `DateTime::timestamp_subsec_nanos`. chrono takes the time from the
/// system clock, which it expects not to lie before 1970. Nothing is
/// claimed of the time read but that it is one `from_timestamp` accepts:
/// chrono documents that the two numbers of any of its dates round-trip
/// through it.
#[verifier::external_body]
fn read_clock() -> (r: (i64, u32))
    ensures
        representable(r.0, r.1),
{
    let now = chrono::Utc::now();
    (now.timestamp(), now.timestamp_subsec_nanos())
}

/// `chrono::DateTime::<Utc>::format` of chrono, written out with
/// `to_string`, on the date that `from_timestamp` gives. The instant must be
/// representable and the pattern one of the three this library uses, all of
/// them valid `strftime` patterns. The contract names the text.
#[verifier::external_body]
fn format_instant(secs: i64, nanos: u32, pattern: &str) -> (r: String)
    requires
        representable(secs, nanos),
        pattern@ == minute_pattern() || pattern@ == listing_pattern() || pattern@
            == stamp_pattern(),
    ensures
        r@ == formatted(secs, nanos, pattern@),
{
    match chrono::DateTime::from_timestamp(secs, nanos) {
        Some(date) => date.format(pattern).to_string(),
        None => String::new(),
    }
}

/// The date and time of a representable instant in the form of RFC 3339,
/// as chrono writes it for UTC: seconds, then as many digits of the
/// fraction as it takes, in groups of three, and `Z` for the offset.
pub uninterp spec fn rfc3339_text(secs: i64, nanos: u32) -> Seq<char>;

/// The instant that chrono reads from a date and time written in the
/// relaxed form of RFC 3339 that it accepts, with a space or a `T` between
/// date and time and any offset; nothing where the text is not in that
/// form.
pub uninterp spec fn rfc3339_instant(text: Seq<char>) -> Option<(i64, u32)>;

/// `chrono::DateTime::to_rfc3339_opts` of chrono, with
/// `SecondsFormat::AutoSi` and `Z` for UTC, on the date that
/// `from_timestamp` gives. The instant must be representable. The
/// contract names the text.
#[verifier::external_body]
fn write_rfc3339(secs: i64, nanos: u32) -> (r: String)
    requires
        representable(secs, nanos),
    ensures
        r@ == rfc3339_text(secs, nanos),
{
    match chrono::DateTime::from_timestamp(secs, nanos) {
        Some(date) => date.to_rfc3339_opts(chrono::SecondsFormat::AutoSi, true),
        None => String::new(),
    }
}

/// The `FromStr` form of `chrono::DateTime<FixedOffset>` of chrono, which
/// reads a relaxed form of RFC 3339, taken apart by `DateTime::timestamp`
/// and `DateTime::timestamp_subsec_nanos`. The contract names the instant
/// read.
#[verifier::external_body]
pub(crate) fn read_rfc3339(text: &str) -> (r: Option<(i64, u32)>)
    ensures
        r == rfc3339_instant(text@),
{
    match text.parse::<chrono::DateTime<chrono::FixedOffset>>() {
        Ok(date) => Some((date.timestamp(), date.timestamp_subsec_nanos())),
        Err(_) => None,
    }
}

/// A representable instant of time in UTC.
#[derive(Debug, Clone, Copy, PartialEq, Eq)]
pub struct Timestamp {
    secs: i64,
    nanos: u32,
}

impl View for Timestamp {
    type V = Instant;

    closed spec fn view(&self) -> Instant {
        Instant { secs: self.secs, nanos: self.nanos }
    }
}

impl Timestamp {
    #[verifier::type_invariant]
    spec fn is_representable(self) -> bool {
        representable(self.secs, self.nanos)
    }

    /// The current time, as the system clock gives it. Whatever the clock
    /// gives, the instant is one that the calendar can represent; which
    /// instant it is, is for the clock to say.
    pub fn now() -> (r: Timestamp)
        ensures
            representable(r@.secs, r@.nanos),
    {
        let (secs, nanos) = read_clock();
        Timestamp { secs, nanos }
    }

    /// The instant with these numbers, if the calendar can represent it.
    pub fn from_parts(secs: i64, nanos: u32) -> (r: Option<Timestamp>)
        ensures
            r is Some <==> representable(secs, nanos),
            r matches Some(t) ==> t@ == (Instant { secs, nanos }),
    {
        if can_represent(secs, nanos) {
            Some(Timestamp { secs, nanos })
        } else {
            None
        }
    }

    /// Whole seconds since the epoch.
    pub fn secs(&self) -> (r: i64)
        ensures
            r == self@.secs,
    {
        self.secs
    }

    /// Nanoseconds since the last whole second.
    pub fn nanos(&self) -> (r: u32)
        ensures
            r == self@.nanos,
    {
        self.nanos
    }

    /// Whether this instant lies after `other`.
    pub fn is_after(&self, other: &Timestamp) -> (r: bool)
        ensures
            r == self@.after(other@),
    {
        self.secs > other.secs || (self.secs == other.secs && self.nanos > other.nanos)
    }

    /// Date and time in the form of RFC 3339: `2015-05-15T00:00:00Z`.
    pub fn to_rfc3339(&self) -> (r: String)
        ensures
            r@ == rfc3339_text(self@.secs, self@.nanos),
    {
        proof {
            use_type_invariant(self);
        }
        write_rfc3339(self.secs, self.nanos)
    }

    /// Date, hour and minute, marked UTC: `2015-05-15 00:00 UTC`.
    pub fn format_minute(&self) -> (r: String)
        ensures
            r@ == formatted(self@.secs, self@.nanos, minute_pattern()),
    {
        proof {
            use_type_invariant(self);
        }
        format_instant(self.secs, self.nanos, "%Y-%m-%d %H:%M UTC")
    }

    /// Date, hour and minute: `2015-05-15 00:00`.
    pub fn format_listing(&self) -> (r: String)
        ensures
            r@ == formatted(self@.secs, self@.nanos, listing_pattern()),
    {
        proof {
            use_type_invariant(self);
        }
        format_instant(self.secs, self.nanos, "%Y-%m-%d %H:%M")
    }

    /// Date and time of day as a file name stamp: `20150515_000000`.
    pub fn format_stamp(&self) -> (r: String)
        ensures
            r@ == formatted(self@.secs, self@.nanos, stamp_pattern()),
    {
        proof {
            use_type_invariant(self);
        }
        format_instant(self.secs, self.nanos, "%Y%m%d_%H%M%S")
    }
}

} // verus!
