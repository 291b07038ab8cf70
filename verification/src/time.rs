//! Instants in UTC and their calendar notation.
//!
//! The calendar arithmetic is `chrono`'s. Which instants it covers is stated
//! here; what it writes and reads is named, and the rest of the library states
//! its contracts over those names.

use vstd::prelude::*;

verus! {

/// The first second of the calendar: midnight before the first day of the
/// year -262143.
pub const FIRST_SECOND: i64 = -8_334_601_228_800;

/// The last second of the calendar: the one before midnight after the last
/// day of the year 262142.
pub const LAST_SECOND: i64 = 8_210_266_876_799;

/// Whether there is a calendar date and time for the instant `secs` seconds
/// and `nanos` nanoseconds after the Unix epoch: the second lies within the
/// calendar, and the nanoseconds stay below a second, or below two seconds in
/// the last second of a minute, where a leap second is written so.
pub open spec fn utc_representable(secs: int, nanos: int) -> bool {
    &&& FIRST_SECOND <= secs <= LAST_SECOND
    &&& 0 <= nanos < 2_000_000_000
    &&& nanos < 1_000_000_000 || secs % 60 == 59
}

/// The notation `chrono` writes for the instant `secs` seconds and `nanos`
/// nanoseconds after the Unix epoch, in UTC, under a `strftime` pattern.
pub uninterp spec fn utc_text(secs: int, nanos: int, pattern: Seq<char>) -> Seq<char>;

/// The instant, in seconds and nanoseconds after the Unix epoch, that `chrono`
/// reads from a text under a `strftime` pattern, taking the text as UTC;
/// `None` where the text does not match the pattern or names no valid date and
/// time.
pub uninterp spec fn utc_parsed(text: Seq<char>, pattern: Seq<char>) -> Option<(int, int)>;

/// The notations this library writes and reads.
#[derive(Clone, Copy, PartialEq, Eq, Structural, Debug)]
pub enum TimeLayout {
    /// Calendar day as eight digits, `YYYYMMDD`.
    Day,
    /// Time of day as six digits, `HHMMSS`.
    Clock,
    /// Day and time as the search service takes them, `YYYY-MM-DD HH:MM:SS`.
    DayAndClock,
    /// Day and time as they stand in a product name, `YYYYMMDDTHHMMSS`.
    ProductStamp,
}

impl TimeLayout {
    /// The `strftime` pattern of the layout.
    pub open spec fn pattern(self) -> Seq<char> {
        match self {
            TimeLayout::Day => "%Y%m%d"@,
            TimeLayout::Clock => "%H%M%S"@,
            TimeLayout::DayAndClock => "%Y-%m-%d %H:%M:%S"@,
            TimeLayout::ProductStamp => "%Y%m%dT%H%M%S"@,
        }
    }

    /// The `strftime` pattern of the layout.
    pub fn as_str(&self) -> (pattern: &'static str)
        ensures
            pattern@ == self.pattern(),
    {
        match self {
            TimeLayout::Day => "%Y%m%d",
            TimeLayout::Clock => "%H%M%S",
            TimeLayout::DayAndClock => "%Y-%m-%d %H:%M:%S",
            TimeLayout::ProductStamp => "%Y%m%dT%H%M%S",
        }
    }
}

/// Whether `pattern` is the pattern of one of the layouts.
pub open spec fn is_layout(pattern: Seq<char>) -> bool {
    exists|layout: TimeLayout| #[trigger] layout.pattern() == pattern
}

/// Error of `chrono`'s parser.
#[verifier::external_type_specification]
#[verifier::external_body]
pub struct ExParseError(chrono::ParseError);

/// Asks `chrono::DateTime::from_timestamp` whether it has a date and time for
/// `secs` seconds and `nanos` nanoseconds after the Unix epoch. It has one
/// for every day from the first of the year -262143 to the last of the year
/// 262142, and takes nanoseconds of a second and more only in the last second
/// of a minute and below two seconds.
#[verifier::external_body]
fn utc_covers(secs: i64, nanos: u32) -> (covered: bool)
    ensures
        covered == utc_representable(secs as int, nanos as int),
{
    chrono::DateTime::from_timestamp(secs, nanos).is_some()
}

/// Writes the instant with `chrono::DateTime::format`. The instant must be
/// one `chrono` has a date for, and the pattern one of the layouts: `chrono`
/// panics when asked to write under a pattern it cannot read.
#[verifier::external_body]
fn format_utc(secs: i64, nanos: u32, pattern: &str) -> (text: String)
    requires
        utc_representable(secs as int, nanos as int),
        is_layout(pattern@),
    ensures
        text@ == utc_text(secs as int, nanos as int, pattern@),
{
    chrono::DateTime::from_timestamp(secs, nanos).unwrap().format(pattern).to_string()
}

/// Reads a date and time with `chrono::NaiveDateTime::parse_from_str`, takes
/// it as UTC and hands out its `timestamp` and `timestamp_subsec_nanos`.
#[verifier::external_body]
fn parse_utc(text: &str, pattern: &str) -> (r: Result<(i64, u32), chrono::ParseError>)
    ensures
        match r {
            Ok(instant) => utc_parsed(text@, pattern@) == Some(
                (instant.0 as int, instant.1 as int),
            ),
            Err(_) => utc_parsed(text@, pattern@) is None,
        },
{
    match chrono::NaiveDateTime::parse_from_str(text, pattern) {
        Ok(t) => Ok((t.and_utc().timestamp(), t.and_utc().timestamp_subsec_nanos())),
        Err(e) => Err(e),
    }
}

/// An instant in UTC for which a calendar date exists.
#[derive(Clone, Copy, PartialEq, Eq, Structural, Debug)]
pub struct Timestamp {
    secs: i64,
    nanos: u32,
}

impl Timestamp {
    #[verifier::type_invariant]
    spec fn has_date(self) -> bool {
        utc_representable(self.secs as int, self.nanos as int)
    }

    /// Whole seconds after the Unix epoch.
    pub closed spec fn seconds(self) -> int {
        self.secs as int
    }

    /// Nanoseconds after the last whole second.
    pub closed spec fn nanoseconds(self) -> int {
        self.nanos as int
    }

    /// The instant `secs` seconds and `nanos` nanoseconds after the Unix
    /// epoch, where a calendar date exists for it.
    pub fn new(secs: i64, nanos: u32) -> (r: Option<Timestamp>)
        ensures
            r is Some <==> utc_representable(secs as int, nanos as int),
            r matches Some(t) ==> t.seconds() == secs && t.nanoseconds() == nanos,
    {
        if utc_covers(secs, nanos) {
            Some(Timestamp { secs, nanos })
        } else {
            None
        }
    }

    /// The instant `secs` whole seconds after the Unix epoch, where a calendar
    /// date exists for it.
    pub fn from_secs(secs: i64) -> (r: Option<Timestamp>)
        ensures
            r is Some <==> utc_representable(secs as int, 0),
            r matches Some(t) ==> t.seconds() == secs && t.nanoseconds() == 0,
    {
        Timestamp::new(secs, 0)
    }

    /// Whole seconds after the Unix epoch. Every instant has a calendar date.
    pub fn secs(&self) -> (secs: i64)
        ensures
            secs == self.seconds(),
            utc_representable(self.seconds(), self.nanoseconds()),
    {
        proof {
            use_type_invariant(self);
        }
        self.secs
    }

    /// Nanoseconds after the last whole second.
    pub fn subsec_nanos(&self) -> (nanos: u32)
        ensures
            nanos == self.nanoseconds(),
    {
        self.nanos
    }

    /// The instant `seconds` earlier, where that instant can be stored and has
    /// a calendar date.
    pub closed spec fn earlier(self, seconds: int) -> Option<Timestamp> {
        if i64::MIN <= self.secs - seconds <= i64::MAX && utc_representable(
            self.secs - seconds,
            self.nanos as int,
        ) {
            Some(Timestamp { secs: (self.secs - seconds) as i64, nanos: self.nanos })
        } else {
            None
        }
    }

    /// An earlier instant exists where the subtraction stays within the range
    /// of instants that have a calendar date, and lies that many seconds back.
    pub proof fn lemma_earlier(self, seconds: int)
        ensures
            self.earlier(seconds) is Some <==> i64::MIN <= self.seconds() - seconds <= i64::MAX
                && utc_representable(self.seconds() - seconds, self.nanoseconds()),
            self.earlier(seconds) matches Some(t) ==> t.seconds() == self.seconds() - seconds
                && t.nanoseconds() == self.nanoseconds(),
    {
    }

    /// The instant `seconds` earlier, where the subtraction stays within the
    /// range of instants that have a calendar date.
    pub fn minus_seconds(&self, seconds: i64) -> (r: Option<Timestamp>)
        ensures
            r == self.earlier(seconds as int),
    {
        match self.secs.checked_sub(seconds) {
            Some(earlier) => Timestamp::new(earlier, self.nanos),
            None => None,
        }
    }

    /// The instant written in `layout`.
    pub fn format(&self, layout: TimeLayout) -> (text: String)
        ensures
            text@ == utc_text(self.seconds(), self.nanoseconds(), layout.pattern()),
    {
        proof {
            use_type_invariant(self);
        }
        format_utc(self.secs, self.nanos, layout.as_str())
    }

    /// Whether two instants are the same.
    pub fn same(&self, other: &Timestamp) -> (b: bool)
        ensures
            b == (self.seconds() == other.seconds() && self.nanoseconds() == other.nanoseconds()),
    {
        self.secs == other.secs && self.nanos == other.nanos
    }
}

/// Why a text could not be read as an instant.
#[derive(Clone, Copy, PartialEq, Eq, Structural, Debug)]
pub enum TimeError {
    /// The text does not match the layout or names no valid date and time.
    Unreadable,
    /// The instant read lies outside the range of calendar dates.
    OutOfRange,
}

/// What reading `text` in `layout` gives: seconds and nanoseconds after the
/// Unix epoch.
pub open spec fn read_instant(text: Seq<char>, layout: TimeLayout) -> Result<(int, int), TimeError> {
    match utc_parsed(text, layout.pattern()) {
        None => Err(TimeError::Unreadable),
        Some(instant) => if i64::MIN <= instant.0 <= i64::MAX && 0 <= instant.1 <= u32::MAX
            && utc_representable(instant.0, instant.1) {
            Ok(instant)
        } else {
            Err(TimeError::OutOfRange)
        },
    }
}

/// Reads an instant written in `layout`.
pub fn parse_timestamp(text: &str, layout: TimeLayout) -> (r: Result<Timestamp, TimeError>)
    ensures
        match r {
            Ok(t) => read_instant(text@, layout) == Ok::<(int, int), TimeError>(
                (t.seconds(), t.nanoseconds()),
            ),
            Err(e) => read_instant(text@, layout) == Err::<(int, int), TimeError>(e),
        },
{
    match parse_utc(text, layout.as_str()) {
        Err(_) => Err(TimeError::Unreadable),
        Ok(instant) => match Timestamp::new(instant.0, instant.1) {
            Some(t) => Ok(t),
            None => Err(TimeError::OutOfRange),
        },
    }
}

} // verus!
