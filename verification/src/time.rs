//! Points in time, as seconds and nanoseconds since the Unix epoch.

use vstd::prelude::*;

verus! {

/// Largest magnitude of the seconds of a [`Timestamp`]: the difference of two
/// timestamps always fits in an `i64`.
pub const MAX_TIMESTAMP_SECS: i64 = 4_611_686_018_427_387_903;

/// One past the largest nanosecond part; the second thousand million stands
/// for a leap second.
pub const NANOS_LIMIT: u32 = 2_000_000_000;

/// Whether `secs` and `nanos` make up a timestamp.
pub open spec fn timestamp_in_range(secs: int, nanos: int) -> bool {
    &&& -MAX_TIMESTAMP_SECS <= secs <= MAX_TIMESTAMP_SECS
    &&& 0 <= nanos < NANOS_LIMIT
}

/// How the `chrono` crate writes the UTC date and time that lies `secs`
/// seconds and `nanos` nanoseconds after the Unix epoch, where its calendar
/// reaches that far.
pub uninterp spec fn utc_text(secs: int, nanos: int) -> Option<Seq<char>>;

/// `Utc::now` of the `chrono` crate, read through `timestamp` and
/// `timestamp_subsec_nanos`. Whatever the clock says, the seconds count days
/// that fit in an `i32`, the nanoseconds stay under two thousand million, and
/// `DateTime::from_timestamp` accepts the pair again.
#[verifier::external_body]
pub(crate) fn clock_now() -> (r: (i64, u32))
    ensures
        timestamp_in_range(r.0 as int, r.1 as int),
        utc_text(r.0 as int, r.1 as int) is Some,
{
    let now = chrono::Utc::now();
    (now.timestamp(), now.timestamp_subsec_nanos())
}

/// `DateTime::from_timestamp` of the `chrono` crate, and `to_string` on the
/// `DateTime<Utc>` it gives: the date and time as text, or nothing where the
/// pair is refused.
#[verifier::external_body]
fn format_utc(secs: i64, nanos: u32) -> (r: Option<String>)
    ensures
        r is Some <==> utc_text(secs as int, nanos as int) is Some,
        r matches Some(text) ==> utc_text(secs as int, nanos as int) == Some(text@),
{
    chrono::DateTime::from_timestamp(secs, nanos).map(|t| t.to_string())
}

/// A point in time on the UTC scale.
#[derive(Debug, Clone, Copy, PartialEq, Eq)]
pub struct Timestamp {
    secs: i64,
    nanos: u32,
}

/// The mathematical value of a [`Timestamp`].
pub struct TimestampView {
    pub secs: int,
    pub nanos: int,
}

impl TimestampView {
    /// Whether `self` is no later than `other`.
    pub open spec fn le(self, other: TimestampView) -> bool {
        self.secs < other.secs || (self.secs == other.secs && self.nanos <= other.nanos)
    }

    /// The later of the two.
    pub open spec fn max(self, other: TimestampView) -> TimestampView {
        if self.le(other) {
            other
        } else {
            self
        }
    }

    /// Whole seconds from `start` to `self`.
    pub open spec fn seconds_since(self, start: TimestampView) -> int {
        self.secs - start.secs
    }

    /// The date and time as text, where the calendar reaches that far.
    pub open spec fn text(self) -> Option<Seq<char>> {
        utc_text(self.secs, self.nanos)
    }
}

impl View for Timestamp {
    type V = TimestampView;

    closed spec fn view(&self) -> TimestampView {
        TimestampView { secs: self.secs as int, nanos: self.nanos as int }
    }
}

impl Timestamp {
    #[verifier::type_invariant]
    closed spec fn in_range(self) -> bool {
        timestamp_in_range(self.secs as int, self.nanos as int)
    }

    /// The timestamp of `secs` and `nanos`, where they are in range.
    pub fn new(secs: i64, nanos: u32) -> (r: Option<Timestamp>)
        ensures
            r is Some <==> timestamp_in_range(secs as int, nanos as int),
            r matches Some(t) ==> t@ == (TimestampView { secs: secs as int, nanos: nanos as int }),
    {
        if -MAX_TIMESTAMP_SECS <= secs && secs <= MAX_TIMESTAMP_SECS && nanos < NANOS_LIMIT {
            Some(Timestamp { secs, nanos })
        } else {
            None
        }
    }

    /// Seconds since the Unix epoch.
    pub fn timestamp(&self) -> (r: i64)
        ensures
            r == self@.secs,
            -MAX_TIMESTAMP_SECS <= r <= MAX_TIMESTAMP_SECS,
    {
        proof {
            use_type_invariant(self);
        }
        self.secs
    }

    /// Nanoseconds since the last whole second.
    pub fn timestamp_subsec_nanos(&self) -> (r: u32)
        ensures
            r == self@.nanos,
            r < NANOS_LIMIT,
    {
        proof {
            use_type_invariant(self);
        }
        self.nanos
    }

    /// The date and time as text, where the calendar reaches that far.
    pub fn to_text(&self) -> (r: Option<String>)
        ensures
            r is Some <==> self@.text() is Some,
            r matches Some(text) ==> self@.text() == Some(text@),
    {
        format_utc(self.secs, self.nanos)
    }

    /// Whether `self` is no later than `other`.
    pub fn le(&self, other: &Timestamp) -> (r: bool)
        ensures
            r == self@.le(other@),
    {
        self.secs < other.secs || (self.secs == other.secs && self.nanos <= other.nanos)
    }

    /// The later of `self` and `other`.
    pub fn max(self, other: Timestamp) -> (r: Timestamp)
        ensures
            r@ == self@.max(other@),
    {
        if self.le(&other) {
            other
        } else {
            self
        }
    }

    /// Whole seconds from `start` to `self`.
    pub fn seconds_since(&self, start: &Timestamp) -> (r: i64)
        ensures
            r == self@.seconds_since(start@),
    {
        proof {
            use_type_invariant(self);
            use_type_invariant(start);
        }
        self.secs - start.secs
    }
}

} // verus!
