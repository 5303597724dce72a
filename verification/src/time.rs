//! Instants on the UTC time line.

use vstd::prelude::*;

verus! {

/// Number of nanoseconds in one second.
pub const NANOS_PER_SEC: u32 = 1_000_000_000;

/// Number of seconds in one day.
pub const SECS_PER_DAY: i64 = 86_400;

/// An instant: whole seconds since 1970-01-01T00:00:00Z and the nanoseconds
/// elapsed inside that second.
///
/// A leap second is written as second `:59` with `nanos` between
/// `1_000_000_000` and `1_999_999_999`, so that instants order
/// lexicographically by `(secs, nanos)`.
#[derive(Clone, Copy, Debug, PartialEq, Eq, Structural)]
pub struct Timestamp {
    pub secs: i64,
    pub nanos: u32,
}

/// What `chrono::DateTime::parse_from_rfc2822` reads out of a text: seconds
/// and nanoseconds of the instant, or `None` where it rejects the text.
pub uninterp spec fn rfc2822_instant(text: Seq<char>) -> Option<(i64, u32)>;

/// What `chrono::DateTime::parse_from_rfc3339` reads out of a text: seconds
/// and nanoseconds of the instant, or `None` where it rejects the text.
pub uninterp spec fn rfc3339_instant(text: Seq<char>) -> Option<(i64, u32)>;

/// The instant that a pair of seconds and nanoseconds stands for.
pub open spec fn instant(pair: Option<(i64, u32)>) -> Option<Timestamp> {
    match pair {
        Some(p) => Some(Timestamp { secs: p.0, nanos: p.1 }),
        None => None,
    }
}

/// Reads the system clock with `chrono::Utc::now`.  The result depends on
/// when the call is made, so nothing is promised of it.
#[verifier::external_body]
pub(crate) fn current_time() -> (now: Timestamp) {
    let now = chrono::Utc::now();
    Timestamp { secs: now.timestamp(), nanos: now.timestamp_subsec_nanos() }
}

/// Parses an RFC 2822 date with `chrono::DateTime::parse_from_rfc2822`.
/// Trusted: the result is the instant that chrono reads, which depends on
/// the text alone; a rejected text gives `None`.
#[verifier::external_body]
pub(crate) fn parse_rfc2822(text: &str) -> (parsed: Option<Timestamp>)
    ensures
        parsed == instant(rfc2822_instant(text@)),
{
    match chrono::DateTime::parse_from_rfc2822(text) {
        Ok(dt) => Some(Timestamp { secs: dt.timestamp(), nanos: dt.timestamp_subsec_nanos() }),
        Err(_) => None,
    }
}

/// Parses an RFC 3339 date with `chrono::DateTime::parse_from_rfc3339`.
/// Trusted: the result is the instant that chrono reads, which depends on
/// the text alone; a rejected text gives `None`.
#[verifier::external_body]
pub(crate) fn parse_rfc3339(text: &str) -> (parsed: Option<Timestamp>)
    ensures
        parsed == instant(rfc3339_instant(text@)),
{
    match chrono::DateTime::parse_from_rfc3339(text) {
        Ok(dt) => Some(Timestamp { secs: dt.timestamp(), nanos: dt.timestamp_subsec_nanos() }),
        Err(_) => None,
    }
}

/// The instant that chrono finds a number of whole days before an
/// instant, each given by seconds and nanoseconds.  `None` where the number
/// of days or one of the instants lies outside chrono's calendar.
pub uninterp spec fn chrono_days_back(secs: i64, nanos: u32, days: u64) -> Option<(i64, u32)>;

/// How many days back a plain instant stays well inside the calendar.
pub const MAX_PLAIN_DAYS: u64 = 36_500;

/// Goes back whole days with `chrono::TimeDelta::try_days` and
/// `DateTime::checked_sub_signed`.  Trusted: the result depends on instant
/// and days alone; for a plain instant and no more than a hundred years it
/// is the instant 86 400 seconds times the days earlier.
#[verifier::external_body]
pub(crate) fn chrono_days_before(now: Timestamp, days: u64) -> (cutoff: Option<Timestamp>)
    ensures
        cutoff == instant(chrono_days_back(now.secs, now.nanos, days)),
        now.plain() && days <= MAX_PLAIN_DAYS ==> cutoff == Some(now.moved_back(days)),
{
    let span = chrono::TimeDelta::try_days(i64::try_from(days).ok()?)?;
    let at = chrono::DateTime::from_timestamp(now.secs, now.nanos)?.checked_sub_signed(span)?;
    Some(Timestamp { secs: at.timestamp(), nanos: at.timestamp_subsec_nanos() })
}

/// What chrono makes of the time from one instant to another, each given
/// by its seconds and nanoseconds: whole seconds and the nanoseconds
/// beside them, both negative where the first instant comes first.  `None`
/// where one of the instants lies outside chrono's calendar.
pub uninterp spec fn chrono_span(later_secs: i64, later_nanos: u32, earlier_secs: i64, earlier_nanos: u32) -> Option<
    (i64, i32),
>;

/// Takes the time from `earlier` to `later` with
/// `chrono::DateTime::from_timestamp` and `signed_duration_since`, read off
/// with `num_seconds` and `subsec_nanos`.  Trusted: the result depends on
/// the two instants alone; where there is one, it is the time that
/// `Timestamp::nanos_since` states; and there is one for instants that are
/// plain.
#[verifier::external_body]
pub(crate) fn chrono_elapsed(later: Timestamp, earlier: Timestamp) -> (span: Option<(i64, i32)>)
    ensures
        span == chrono_span(later.secs, later.nanos, earlier.secs, earlier.nanos),
        span matches Some(s) ==> s.0 * 1_000_000_000 + s.1 == later.nanos_since(earlier),
        later.plain() && earlier.plain() ==> span is Some,
{
    let a = chrono::DateTime::from_timestamp(later.secs, later.nanos)?;
    let b = chrono::DateTime::from_timestamp(earlier.secs, earlier.nanos)?;
    let span = a.signed_duration_since(b);
    Some((span.num_seconds(), span.subsec_nanos()))
}

impl Timestamp {
    /// `self` lies strictly before `other`.
    pub open spec fn lt(self, other: Timestamp) -> bool {
        self.secs < other.secs || (self.secs == other.secs && self.nanos < other.nanos)
    }

    /// `self` lies before `other` or is the same instant.
    pub open spec fn le(self, other: Timestamp) -> bool {
        self.lt(other) || self == other
    }

    /// The later of two instants.
    pub open spec fn max(self, other: Timestamp) -> Timestamp {
        if self.lt(other) {
            other
        } else {
            self
        }
    }

    pub fn new(secs: i64, nanos: u32) -> (t: Timestamp)
        ensures
            t.secs == secs,
            t.nanos == nanos,
    {
        Timestamp { secs, nanos }
    }

    /// Strictly earlier than `other`.
    pub fn is_before(&self, other: &Timestamp) -> (b: bool)
        ensures
            b == self.lt(*other),
    {
        self.secs < other.secs || (self.secs == other.secs && self.nanos < other.nanos)
    }

    /// Strictly later than `other`.
    pub fn is_later_than(&self, other: &Timestamp) -> (b: bool)
        ensures
            b == other.lt(*self),
    {
        other.is_before(self)
    }

    /// Not later than `other`.
    pub fn is_at_or_before(&self, other: &Timestamp) -> (b: bool)
        ensures
            b == self.le(*other),
    {
        !other.is_before(self)
    }

    /// The second of the day, `0..86_400`, in which the instant falls.
    pub open spec fn second_of_day(self) -> int {
        self.secs as int % 86_400
    }

    /// Nanoseconds that pass between `earlier` and `self`; negative when
    /// `self` comes first.
    ///
    /// Every day is taken to have 86 400 seconds.  One correction is made:
    /// when one of the two instants is written as a leap second and the
    /// other falls in a different second of the day on its far side, the
    /// leap second is counted once.
    pub open spec fn nanos_since(self, earlier: Timestamp) -> int {
        let leap: int = if self.second_of_day() > earlier.second_of_day() && earlier.nanos
            >= NANOS_PER_SEC {
            1
        } else if self.second_of_day() < earlier.second_of_day() && self.nanos >= NANOS_PER_SEC {
            -1
        } else {
            0
        };
        (self.secs - earlier.secs + leap) * 1_000_000_000 + (self.nanos - earlier.nanos)
    }

    /// The instant lies within eight billion seconds of 1970 and is no leap
    /// second: well inside the calendar.
    pub open spec fn plain(self) -> bool {
        -8_000_000_000_000 <= self.secs <= 8_000_000_000_000 && self.nanos < NANOS_PER_SEC
    }

    /// Nanoseconds that pass between `earlier` and `self`, as the
    /// calendar counts them; `None` where one of the two lies outside the
    /// calendar.  For instants inside it that is `nanos_since`.
    pub open spec fn since(self, earlier: Timestamp) -> Option<int> {
        match chrono_span(self.secs, self.nanos, earlier.secs, earlier.nanos) {
            Some(span) => Some(span.0 * 1_000_000_000 + span.1),
            None => None,
        }
    }

    /// The instant `days` whole days before `self`, as the calendar has
    /// it; `None` where that lies outside the calendar.
    pub open spec fn days_back(self, days: u64) -> Option<Timestamp> {
        instant(chrono_days_back(self.secs, self.nanos, days))
    }

    /// The instant 86 400 seconds times `days` before `self`.
    pub open spec fn moved_back(self, days: u64) -> Timestamp {
        Timestamp { secs: (self.secs - days * 86_400) as i64, nanos: self.nanos }
    }

    /// `self` is later than `cutoff`; every instant is later than no
    /// cutoff.
    pub open spec fn after(self, cutoff: Option<Timestamp>) -> bool {
        match cutoff {
            Some(mark) => mark.lt(self),
            None => true,
        }
    }

    /// `self` is later than the instant `days` whole days before `now`.
    /// Where there is no such instant in the calendar, every instant is.
    pub open spec fn within_days_of(self, now: Timestamp, days: u64) -> bool {
        self.after(now.days_back(days))
    }

    /// The later of `self` and `other`; `self` when they are the same instant.
    pub fn later_of(self, other: Timestamp) -> (t: Timestamp)
        ensures
            t == self.max(other),
    {
        if self.is_before(&other) {
            other
        } else {
            self
        }
    }

    /// Nanoseconds from `earlier` to `self`; negative when `self` comes
    /// first.  `None` where one of the two lies outside the calendar.
    pub fn elapsed_since(&self, earlier: &Timestamp) -> (nanos: Option<i128>)
        ensures
            match nanos {
                Some(n) => self.since(*earlier) == Some(n as int) && n == self.nanos_since(*earlier),
                None => self.since(*earlier) is None,
            },
            self.plain() && earlier.plain() ==> nanos is Some,
    {
        match chrono_elapsed(*self, *earlier) {
            Some(span) => Some((span.0 as i128) * 1_000_000_000 + (span.1 as i128)),
            None => None,
        }
    }

    /// The instant `days` whole days before `self`; `None` where that lies
    /// outside the calendar.
    pub fn cutoff(&self, days: u64) -> (cutoff: Option<Timestamp>)
        ensures
            cutoff == self.days_back(days),
            self.plain() && days <= MAX_PLAIN_DAYS ==> cutoff == Some(self.moved_back(days)),
    {
        chrono_days_before(*self, days)
    }

    /// Whether `self` is later than `cutoff`.
    pub fn is_after(&self, cutoff: &Option<Timestamp>) -> (b: bool)
        ensures
            b == self.after(*cutoff),
    {
        match cutoff {
            Some(mark) => mark.is_before(self),
            None => true,
        }
    }

    /// Whether `self` is later than the instant `days` whole days before
    /// `now`.
    pub fn is_within_days_of(&self, now: &Timestamp, days: u64) -> (b: bool)
        ensures
            b == self.within_days_of(*now, days),
            now.plain() && days <= MAX_PLAIN_DAYS ==> b == now.moved_back(days).lt(*self),
    {
        let cutoff = now.cutoff(days);
        self.is_after(&cutoff)
    }
}

} // verus!
