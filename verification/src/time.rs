//! Time windows that the seeding programs draw their timestamps from.
//!
//! An instant is a UTC time as chrono holds it: whole seconds since the Unix
//! epoch and the nanoseconds past that second (`DateTime::timestamp` and
//! `DateTime::timestamp_subsec_nanos`).

use vstd::prelude::*;

verus! {

/// A UTC instant: seconds since the Unix epoch, and nanoseconds past them
/// (from one billion up during a leap second).
#[derive(Clone, Copy, Debug, PartialEq, Eq, Structural)]
pub struct Instant {
    pub secs: i64,
    pub nanos: u32,
}

/// Seconds in a calendar day of UTC.
pub const SECS_PER_DAY: i64 = 86_400;

/// The earliest second chrono represents: 1 January of the year -262143, at
/// midnight (`DateTime::<Utc>::MIN_UTC`).
pub const MIN_SECS: i64 = -8_334_601_228_800;

/// The last second chrono represents: 31 December of the year 262142, at
/// 23:59:59 (`DateTime::<Utc>::MAX_UTC`).
pub const MAX_SECS: i64 = 8_210_266_876_799;

/// Seeded timestamps reach back this many days.
pub const SEED_SPAN_DAYS: u64 = 365;

/// Seeded videos were created at least this many days ago.
pub const CREATION_LAG_DAYS: u64 = 30;

/// An instant that chrono can represent: a second within its range and a
/// nanosecond count below one billion, or below two billion in the last
/// second of a minute (a leap second).
pub open spec fn valid_instant(t: Instant) -> bool {
    &&& MIN_SECS <= t.secs <= MAX_SECS
    &&& (t.nanos < 1_000_000_000 || (t.nanos < 2_000_000_000 && t.secs % 60 == 59))
}

/// `a` is not later than `b`.
pub open spec fn not_after(a: Instant, b: Instant) -> bool {
    a.secs < b.secs || (a.secs == b.secs && a.nanos <= b.nanos)
}

/// The instant `days` calendar days before `t`, at the same time of day, if
/// chrono represents it.
pub open spec fn days_before_spec(t: Instant, days: u64) -> Option<Instant> {
    if valid_instant(t) && t.secs - days * SECS_PER_DAY >= MIN_SECS {
        Some(Instant { secs: (t.secs - days * SECS_PER_DAY) as i64, nanos: t.nanos })
    } else {
        None
    }
}

/// Moving back keeps the time of day to the nanosecond and takes off
/// exactly `SECS_PER_DAY` seconds a day; it fails only when the result
/// would fall before chrono's earliest second, or the instant itself is not
/// one chrono represents. Moving back no days keeps a representable instant.
pub proof fn law_days_before_moves_back_whole_days(t: Instant, days: u64)
    ensures
        days_before_spec(t, days) matches Some(r) ==> r.nanos == t.nanos && r.secs == t.secs - days
            * 86_400 && valid_instant(r),
        valid_instant(t) && t.secs - days * 86_400 >= MIN_SECS ==> days_before_spec(t, days) is Some,
        !valid_instant(t) || t.secs - days * 86_400 < MIN_SECS ==> days_before_spec(t, days) is None,
        valid_instant(t) ==> days_before_spec(t, 0) == Some(t),
{
    if days_before_spec(t, days) is Some {
        let r = days_before_spec(t, days)->0;
        assert(r.secs % 60 == t.secs % 60);
    }
}

/// `chrono::DateTime::<Utc>::checked_sub_days` on the instant `t`, made with
/// `DateTime::from_timestamp` and read back with `timestamp` and
/// `timestamp_subsec_nanos`. `from_timestamp` yields a value exactly for the
/// instants of `valid_instant`. In UTC every calendar day has
/// `SECS_PER_DAY` seconds and the time of day is kept, so the result is `t`
/// moved back by whole days; it is absent exactly when its date falls before
/// chrono's earliest date (more than `i32::MAX` days always do).
#[verifier::external_body]
fn checked_sub_days_utc(t: Instant, days: u64) -> (r: Option<Instant>)
    ensures
        r == days_before_spec(t, days),
{
    chrono::DateTime::from_timestamp(t.secs, t.nanos).and_then(
        |d| d.checked_sub_days(chrono::Days::new(days)),
    ).map(|d| Instant { secs: d.timestamp(), nanos: d.timestamp_subsec_nanos() })
}

/// The instant `days` calendar days before `t`, or `None` when chrono does
/// not represent it.
pub fn days_before(t: Instant, days: u64) -> (r: Option<Instant>)
    ensures
        r == days_before_spec(t, days),
{
    checked_sub_days_utc(t, days)
}

/// Nanoseconds in a minute.
pub const MINUTE_NANOS: i128 = 60_000_000_000;

/// The instant as a count of nanoseconds since the Unix epoch.
pub open spec fn total_nanos(t: Instant) -> int {
    t.secs * 1_000_000_000 + t.nanos
}

/// A span that `fake`'s `DateTimeBetween` can draw from: two instants that
/// chrono represents, neither a leap second, the end at least a whole
/// minute after the start.
pub open spec fn drawable(start: Instant, end: Instant) -> bool {
    &&& valid_instant(start)
    &&& valid_instant(end)
    &&& start.nanos < 1_000_000_000
    &&& end.nanos < 1_000_000_000
    &&& total_nanos(end) - total_nanos(start) >= MINUTE_NANOS
}

/// What every draw from the span gives: `start` plus a whole number of
/// minutes, at least one whole minute before `end`.
pub open spec fn drawn_between(start: Instant, end: Instant, r: Instant) -> bool {
    &&& valid_instant(r)
    &&& r.nanos == start.nanos
    &&& start.secs <= r.secs
    &&& (r.secs - start.secs) % 60 == 0
    &&& total_nanos(r) + MINUTE_NANOS <= total_nanos(end)
}

/// A random instant drawn with `fake`'s `DateTimeBetween(start, end)`,
/// between instants made with chrono's `DateTime::from_timestamp` (which
/// yields a value for every instant of `valid_instant`). The draw is `start`
/// plus a whole number of minutes picked with `rand` from zero up to, not
/// including, the whole minutes of `end - start`; that range is empty, and
/// `rand` panics, when the span is shorter than a minute, which `drawable`
/// rules out. Without leap seconds at either end chrono adds the minutes
/// exactly and keeps the nanoseconds. Which of those minutes comes out is
/// left open: it depends on the random number generator.
#[verifier::external_body]
fn fake_between(start: Instant, end: Instant) -> (r: Instant)
    requires
        drawable(start, end),
    ensures
        drawn_between(start, end, r),
{
    let start = chrono::DateTime::from_timestamp(start.secs, start.nanos).unwrap();
    let end = chrono::DateTime::from_timestamp(end.secs, end.nanos).unwrap();
    let drawn: chrono::DateTime<chrono::Utc> =
        fake::Fake::fake(&fake::faker::chrono::en::DateTimeBetween(start, end));
    Instant { secs: drawn.timestamp(), nanos: drawn.timestamp_subsec_nanos() }
}

/// Draws a random instant from the span: `start` plus whole minutes, at
/// least a minute before `end`.
pub fn draw_between(start: Instant, end: Instant) -> (r: Instant)
    requires
        drawable(start, end),
    ensures
        drawn_between(start, end, r),
        not_after(start, r),
        not_after(r, end) && r != end,
{
    fake_between(start, end)
}

/// Whether a span can be drawn from; a span that cannot makes `fake`
/// panic.
pub fn is_drawable(start: Instant, end: Instant) -> (b: bool)
    ensures
        b == drawable(start, end),
{
    if start.secs < MIN_SECS || start.secs > MAX_SECS || end.secs < MIN_SECS || end.secs > MAX_SECS {
        return false;
    }
    if start.nanos >= 1_000_000_000 || end.nanos >= 1_000_000_000 {
        return false;
    }
    let span: i128 = (end.secs as i128 - start.secs as i128) * 1_000_000_000i128 + (end.nanos as i128
        - start.nanos as i128);
    span >= MINUTE_NANOS
}

/// An instant that a clock reading can be: one that chrono represents,
/// and not a leap second (chrono's `Utc::now` never yields one).
pub open spec fn clock_reading(t: Instant) -> bool {
    valid_instant(t) && t.nanos < 1_000_000_000
}

/// Whether `t` is an instant that a clock reading can be.
pub fn is_clock_reading(t: Instant) -> (b: bool)
    ensures
        b == clock_reading(t),
{
    MIN_SECS <= t.secs && t.secs <= MAX_SECS && t.nanos < 1_000_000_000
}

/// A span of time from `start` to `end`.
#[derive(Clone, Copy, Debug, PartialEq, Eq, Structural)]
pub struct TimeWindow {
    pub start: Instant,
    pub end: Instant,
}

/// Why a window could not be computed.
#[derive(Clone, Copy, Debug, PartialEq, Eq, Structural)]
pub enum WindowError {
    /// The end of the window, moved back from now, is not representable.
    ShiftFailed,
    /// The start of the window, moved back from its end, is not representable.
    SpanFailed,
}

impl WindowError {
    pub open spec fn message_spec(self) -> Seq<char> {
        match self {
            WindowError::ShiftFailed => "date calc"@,
            WindowError::SpanFailed => "unable to sub days"@,
        }
    }

    /// The message the error is reported with.
    pub fn message(&self) -> (m: String)
        ensures
            m@ == self.message_spec(),
    {
        match self {
            WindowError::ShiftFailed => String::from_str("date calc"),
            WindowError::SpanFailed => String::from_str("unable to sub days"),
        }
    }
}

/// The last `SEED_SPAN_DAYS` days up to `now`.
pub open spec fn recent_window_spec(now: Instant) -> Result<TimeWindow, WindowError> {
    match days_before_spec(now, SEED_SPAN_DAYS) {
        Some(start) => Ok(TimeWindow { start, end: now }),
        None => Err(WindowError::SpanFailed),
    }
}

/// The `SEED_SPAN_DAYS` days that end `CREATION_LAG_DAYS` days before `now`.
pub open spec fn creation_window_spec(now: Instant) -> Result<TimeWindow, WindowError> {
    match days_before_spec(now, CREATION_LAG_DAYS) {
        None => Err(WindowError::ShiftFailed),
        Some(end) => match days_before_spec(end, SEED_SPAN_DAYS) {
            Some(start) => Ok(TimeWindow { start, end }),
            None => Err(WindowError::SpanFailed),
        },
    }
}

/// The window that log entries and visits are dated in: the last year.
pub fn recent_window(now: Instant) -> (r: Result<TimeWindow, WindowError>)
    ensures
        r == recent_window_spec(now),
{
    match days_before(now, SEED_SPAN_DAYS) {
        Some(start) => Ok(TimeWindow { start, end: now }),
        None => Err(WindowError::SpanFailed),
    }
}

/// The window that videos are created in: a year that ends a month ago.
pub fn creation_window(now: Instant) -> (r: Result<TimeWindow, WindowError>)
    ensures
        r == creation_window_spec(now),
{
    let end = match days_before(now, CREATION_LAG_DAYS) {
        Some(end) => end,
        None => return Err(WindowError::ShiftFailed),
    };
    match days_before(end, SEED_SPAN_DAYS) {
        Some(start) => Ok(TimeWindow { start, end }),
        None => Err(WindowError::SpanFailed),
    }
}

/// Both windows are a whole `SEED_SPAN_DAYS` long, at the same time of day
/// at both ends, and end no later than `now`; a video's window ends exactly
/// `CREATION_LAG_DAYS` before it.
pub proof fn law_windows_span_a_year(now: Instant)
    ensures
        recent_window_spec(now) matches Ok(w) ==> {
            &&& w.end == now
            &&& w.end.secs - w.start.secs == SEED_SPAN_DAYS * SECS_PER_DAY
            &&& w.start.nanos == w.end.nanos
            &&& not_after(w.start, w.end)
        },
        creation_window_spec(now) matches Ok(w) ==> {
            &&& now.secs - w.end.secs == CREATION_LAG_DAYS * SECS_PER_DAY
            &&& w.end.secs - w.start.secs == SEED_SPAN_DAYS * SECS_PER_DAY
            &&& w.start.nanos == now.nanos && w.end.nanos == now.nanos
            &&& not_after(w.start, w.end) && not_after(w.end, now)
        },
{
}

/// Every instant chrono represents from `SEED_SPAN_DAYS + CREATION_LAG_DAYS`
/// days after its earliest date on has both windows.
pub proof fn law_windows_exist_for_representable_instants(now: Instant)
    requires
        valid_instant(now),
        now.secs >= MIN_SECS + (SEED_SPAN_DAYS + CREATION_LAG_DAYS) * SECS_PER_DAY,
    ensures
        recent_window_spec(now) is Ok,
        creation_window_spec(now) is Ok,
{
    assert((now.secs - CREATION_LAG_DAYS * SECS_PER_DAY) % 60 == now.secs % 60);
}

/// Each window of an ordinary clock reading (chrono represents it and it is
/// not a leap second) can be drawn from.
pub proof fn law_windows_are_drawable(now: Instant)
    requires
        clock_reading(now),
    ensures
        recent_window_spec(now) matches Ok(w) ==> drawable(w.start, w.end),
        creation_window_spec(now) matches Ok(w) ==> drawable(w.start, w.end),
{
}

/// Every draw lies at least a minute before the end, so the span from it to
/// the same end can be drawn from again: a visitor's registration and
/// payment draws never fail.
pub proof fn law_draw_leaves_a_drawable_rest(start: Instant, end: Instant, r: Instant)
    requires
        drawable(start, end),
        drawn_between(start, end, r),
    ensures
        drawable(r, end),
{
}

} // verus!
