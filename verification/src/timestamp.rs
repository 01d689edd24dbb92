//! A date and time with a fixed offset from UTC, written and read through `chrono`.

use vstd::prelude::*;

verus! {

/// The earliest second since the Unix epoch that `chrono` can hold:
/// the first second of the year -262143.
pub const MIN_SECONDS: i64 = -8_334_601_228_800;

/// The latest second since the Unix epoch that `chrono` can hold:
/// the last second of the year 262142.
pub const MAX_SECONDS: i64 = 8_210_266_876_799;

/// The mathematical value of a [`Timestamp`].
pub ghost struct TimestampView {
    /// Seconds since 1970-01-01T00:00:00Z, leap seconds not counted.
    pub seconds: int,
    /// Nanoseconds since the last whole second; a billion or more during a leap second.
    pub nanos: int,
    /// Seconds by which local time is ahead of UTC.
    pub offset: int,
}

impl TimestampView {
    /// The values that `chrono` can hold and write down: the instant and the
    /// local time both lie within its range of years, the offset is less than
    /// a day, and a leap second stands only in the last second of a minute.
    pub open spec fn valid(self) -> bool {
        &&& MIN_SECONDS <= self.seconds <= MAX_SECONDS
        &&& MIN_SECONDS <= self.seconds + self.offset <= MAX_SECONDS
        &&& -86_400 < self.offset < 86_400
        &&& 0 <= self.nanos < 2_000_000_000
        &&& (self.nanos >= 1_000_000_000 ==> self.seconds % 60 == 59)
    }

    /// The canonical text of this timestamp.
    pub open spec fn rfc3339(self) -> Seq<char> {
        rfc3339_text(self.seconds, self.nanos, self.offset)
    }

    /// The timestamp of three values, where they are valid together.
    pub open spec fn of(seconds: int, nanos: int, offset: int) -> Option<TimestampView> {
        let t = TimestampView { seconds, nanos, offset };
        if t.valid() {
            Some(t)
        } else {
            None
        }
    }
}

/// What `chrono` writes for a valid timestamp in RFC 3339 form, with whole
/// seconds and `Z` for a zero offset.
pub uninterp spec fn rfc3339_text(seconds: int, nanos: int, offset: int) -> Seq<char>;

/// What `chrono` reads from a text as a date and time with an offset:
/// seconds since the epoch, nanoseconds and offset, or `None` where it
/// refuses the text.
pub uninterp spec fn parsed_date_time(text: Seq<char>) -> Option<(i64, u32, i32)>;

/// The timestamp that a text stands for: what `chrono` reads from it, where
/// that is a valid timestamp.
pub open spec fn parsed_timestamp(text: Seq<char>) -> Option<TimestampView> {
    match parsed_date_time(text) {
        Some((seconds, nanos, offset)) => TimestampView::of(
            seconds as int,
            nanos as int,
            offset as int,
        ),
        None => None,
    }
}

/// A date and time with a fixed offset from UTC.
///
/// Every timestamp is one that `chrono` can hold and write down. Two
/// timestamps are equal when they name the same instant at the same offset.
#[derive(Debug, Clone, Copy, PartialEq, Eq, Hash)]
pub struct Timestamp {
    seconds: i64,
    nanos: u32,
    offset: i32,
}

impl View for Timestamp {
    type V = TimestampView;

    closed spec fn view(&self) -> TimestampView {
        TimestampView {
            seconds: self.seconds as int,
            nanos: self.nanos as int,
            offset: self.offset as int,
        }
    }
}

impl DeepView for Timestamp {
    type V = TimestampView;

    open spec fn deep_view(&self) -> TimestampView {
        self@
    }
}

/// Calls `chrono::DateTime::to_rfc3339_opts` with whole seconds and `Z`, on
/// the instant `seconds`, `nanos` seen at `offset` seconds east of UTC. The
/// `requires` keeps to the values on which `chrono` builds the date and
/// time and has its local form in range; the text is a function of the
/// three numbers alone.
#[verifier::external_body]
fn chrono_to_rfc3339(seconds: i64, nanos: u32, offset: i32) -> (text: String)
    requires
        (TimestampView { seconds: seconds as int, nanos: nanos as int, offset: offset as int }).valid(),
    ensures
        text@ == rfc3339_text(seconds as int, nanos as int, offset as int),
{
    let zone = chrono::FixedOffset::east_opt(offset).unwrap();
    let utc = chrono::DateTime::from_timestamp(seconds, nanos).unwrap();
    utc.with_timezone(&zone).to_rfc3339_opts(chrono::SecondsFormat::Secs, true)
}

/// Calls `str::parse` for `chrono::DateTime<chrono::FixedOffset>`, which
/// reads RFC 3339 in a relaxed form. The result is a function of the text
/// alone.
#[verifier::external_body]
fn chrono_parse(text: &str) -> (parts: Option<(i64, u32, i32)>)
    ensures
        parts == parsed_date_time(text@),
{
    match text.parse::<chrono::DateTime<chrono::FixedOffset>>() {
        Ok(at) => Some((at.timestamp(), at.timestamp_subsec_nanos(), at.offset().local_minus_utc())),
        Err(_) => None,
    }
}

/// Calls `chrono::Utc::now`, which reads the clock and panics where the
/// system clock stands before 1970 or the time lies outside the years that
/// `chrono` can hold. Whatever the clock says, the seconds are within
/// `chrono`'s range and the nanoseconds are less than a billion.
#[verifier::external_body]
fn chrono_utc_now() -> (parts: (i64, u32))
    ensures
        MIN_SECONDS <= parts.0 <= MAX_SECONDS,
        parts.1 < 1_000_000_000,
{
    let now = chrono::Utc::now();
    (now.timestamp(), now.timestamp_subsec_nanos())
}

/// Calls `chrono::Local::now`, which takes the instant from
/// `chrono::Utc::now` and the offset from the machine's time zone, and
/// panics where `chrono::Utc::now` does or the time zone cannot be looked
/// up. Whatever clock and time zone say, the instant is as for
/// `chrono::Utc::now` and the offset is less than a day.
#[verifier::external_body]
fn chrono_local_now() -> (parts: (i64, u32, i32))
    ensures
        MIN_SECONDS <= parts.0 <= MAX_SECONDS,
        parts.1 < 1_000_000_000,
        -86_400 < parts.2 < 86_400,
{
    let now = chrono::Local::now();
    (now.timestamp(), now.timestamp_subsec_nanos(), now.offset().local_minus_utc())
}

impl Timestamp {
    /// Every timestamp is valid.
    #[verifier::type_invariant]
    pub open spec fn well_formed(self) -> bool {
        self@.valid()
    }

    /// The timestamp of `seconds` and `nanos` since the Unix epoch, seen
    /// `offset` seconds east of UTC; `None` where `chrono` cannot hold or
    /// write down such a date and time.
    pub fn new(seconds: i64, nanos: u32, offset: i32) -> (made: Option<Timestamp>)
        ensures
            made.deep_view() == TimestampView::of(seconds as int, nanos as int, offset as int),
    {
        if seconds < MIN_SECONDS || seconds > MAX_SECONDS {
            return None;
        }
        if offset <= -86_400 || offset >= 86_400 {
            return None;
        }
        let local: i64 = seconds + offset as i64;
        if local < MIN_SECONDS || local > MAX_SECONDS {
            return None;
        }
        if nanos >= 2_000_000_000 {
            return None;
        }
        if nanos >= 1_000_000_000 && seconds.checked_rem_euclid(60) != Some(59) {
            return None;
        }
        Some(Timestamp { seconds, nanos, offset })
    }

    /// Seconds since 1970-01-01T00:00:00Z.
    pub fn unix_seconds(&self) -> (seconds: i64)
        ensures
            seconds == self@.seconds,
            self@.valid(),
    {
        proof {
            use_type_invariant(self);
        }
        self.seconds
    }

    /// Nanoseconds since the last whole second.
    pub fn subsec_nanos(&self) -> (nanos: u32)
        ensures
            nanos == self@.nanos,
            self@.valid(),
    {
        proof {
            use_type_invariant(self);
        }
        self.nanos
    }

    /// Seconds by which local time is ahead of UTC.
    pub fn offset_seconds(&self) -> (offset: i32)
        ensures
            offset == self@.offset,
            self@.valid(),
    {
        proof {
            use_type_invariant(self);
        }
        self.offset
    }

    /// The timestamp in RFC 3339 form, with whole seconds and `Z` for UTC.
    pub fn to_rfc3339(&self) -> (text: String)
        ensures
            text@ == self@.rfc3339(),
            self@.valid(),
    {
        proof {
            use_type_invariant(self);
        }
        chrono_to_rfc3339(self.seconds, self.nanos, self.offset)
    }

    /// Reads a timestamp from RFC 3339 text, as `chrono` reads it: a space
    /// may stand for the `T`, and spaces may stand between the parts.
    pub fn parse(text: &str) -> (read: Option<Timestamp>)
        ensures
            read.deep_view() == parsed_timestamp(text@),
    {
        match chrono_parse(text) {
            Some((seconds, nanos, offset)) => Timestamp::new(seconds, nanos, offset),
            None => None,
        }
    }

    /// The current instant, with offset zero and without a leap second.
    ///
    /// # Panics
    ///
    /// Panics where `chrono::Utc::now` does: where the system clock stands
    /// before 1970 or beyond the years that `chrono` can hold.
    pub fn now_utc() -> (now: Timestamp)
        ensures
            now@.valid(),
            now@.offset == 0,
            now@.nanos < 1_000_000_000,
    {
        let (seconds, nanos) = chrono_utc_now();
        Timestamp::new(seconds, nanos, 0).unwrap()
    }

    /// The current instant, with the offset of the machine's time zone and
    /// without a leap second. Where local time at that offset would fall
    /// outside the range of years that can be written down, the offset is
    /// zero.
    ///
    /// # Panics
    ///
    /// Panics where `chrono::Local::now` does: where the system clock
    /// stands before 1970 or beyond the years that `chrono` can hold, or
    /// the machine's time zone cannot be looked up.
    pub fn now_local() -> (now: Timestamp)
        ensures
            now@.valid(),
            now@.nanos < 1_000_000_000,
    {
        let (seconds, nanos, offset) = chrono_local_now();
        Timestamp::new_or_utc(seconds, nanos, offset).unwrap()
    }

    /// The timestamp of `seconds` and `nanos` since the Unix epoch, seen
    /// `offset` seconds east of UTC where there is such a timestamp, and
    /// seen from UTC where there is none; `None` where there is neither.
    pub fn new_or_utc(seconds: i64, nanos: u32, offset: i32) -> (made: Option<Timestamp>)
        ensures
            made.deep_view() == TimestampView::of_or_utc(
                seconds as int,
                nanos as int,
                offset as int,
            ),
    {
        match Timestamp::new(seconds, nanos, offset) {
            Some(at) => Some(at),
            None => Timestamp::new(seconds, nanos, 0),
        }
    }
}

impl TimestampView {
    /// The timestamp of three values where they are valid together, and
    /// else the timestamp of the same instant at offset zero.
    pub open spec fn of_or_utc(seconds: int, nanos: int, offset: int) -> Option<TimestampView> {
        match TimestampView::of(seconds, nanos, offset) {
            Some(t) => Some(t),
            None => TimestampView::of(seconds, nanos, 0),
        }
    }
}

} // verus!
