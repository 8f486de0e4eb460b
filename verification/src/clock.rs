//! Instants of time, the whole seconds between two of them, and their
//! rendering as wall-clock texts (through chrono and chrono-tz).
use std::fmt::Write;
use vstd::prelude::*;
use crate::text::text_or_empty;

verus! {

/// The earliest second (since the Unix epoch) that chrono can represent:
/// `DateTime::<Utc>::MIN_UTC`, in the year -262143.
pub const EARLIEST_SECOND: i64 = -8334601228800;

/// The latest second (since the Unix epoch) that chrono can represent:
/// `DateTime::<Utc>::MAX_UTC`, on December 31st of the year 262142.
pub const LATEST_SECOND: i64 = 8210266876799;

/// The number of nanoseconds in a second.
pub const NANOS_PER_SECOND: u32 = 1_000_000_000;

/// An instant, as a UTC date and time is held: whole seconds since the Unix
/// epoch and the nanoseconds within that second. Every instant lies in the
/// range of dates that chrono can represent.
#[derive(Clone, Copy, Debug, PartialEq, Eq)]
pub struct Timestamp {
    secs: i64,
    nanos: u32,
}

/// Whether `(secs, nanos)` is an instant that chrono can represent.
pub open spec fn representable(secs: int, nanos: int) -> bool {
    &&& EARLIEST_SECOND <= secs <= LATEST_SECOND
    &&& 0 <= nanos < NANOS_PER_SECOND
}

/// Integer division rounding toward zero, as Rust's `/` does (for `b > 0`).
pub open spec fn trunc_div(a: int, b: int) -> int
    recommends
        b > 0,
{
    if a >= 0 {
        a / b
    } else {
        -((-a) / b)
    }
}

/// The remainder that goes with `trunc_div`, as Rust's `%` computes it.
pub open spec fn trunc_rem(a: int, b: int) -> int
    recommends
        b > 0,
{
    a - b * trunc_div(a, b)
}

impl Timestamp {
    /// The instant is one that chrono can represent.
    #[verifier::type_invariant]
    pub closed spec fn valid(self) -> bool {
        representable(self.secs as int, self.nanos as int)
    }

    /// Whole seconds since the Unix epoch.
    pub closed spec fn seconds(self) -> i64 {
        self.secs
    }

    /// Nanoseconds within the second.
    pub closed spec fn subsec_nanos(self) -> u32 {
        self.nanos
    }

    /// The instant made of `secs` and `nanos`, or `None` where chrono could
    /// not represent it.
    pub fn new(secs: i64, nanos: u32) -> (r: Option<Timestamp>)
        ensures
            r is Some <==> representable(secs as int, nanos as int),
            r matches Some(t) ==> t.seconds() == secs && t.subsec_nanos() == nanos,
    {
        if EARLIEST_SECOND <= secs && secs <= LATEST_SECOND && nanos < NANOS_PER_SECOND {
            Some(Timestamp { secs, nanos })
        } else {
            None
        }
    }

    /// Whole seconds since the Unix epoch (chrono's `timestamp`).
    pub fn timestamp(&self) -> (r: i64)
        ensures
            r == self.seconds(),
            EARLIEST_SECOND <= r <= LATEST_SECOND,
    {
        proof {
            use_type_invariant(self);
        }
        self.secs
    }

    /// Nanoseconds within the second (chrono's `timestamp_subsec_nanos`).
    pub fn nanoseconds(&self) -> (r: u32)
        ensures
            r == self.subsec_nanos(),
    {
        self.nanos
    }
}

/// The signed number of nanoseconds from `start` to `end`.
pub open spec fn nanos_between(start: Timestamp, end: Timestamp) -> int {
    (end.seconds() - start.seconds()) * NANOS_PER_SECOND + (end.subsec_nanos()
        - start.subsec_nanos())
}

/// The whole seconds from `start` to `end`, rounded toward zero, as chrono's
/// `(end - start).num_seconds()` gives them.
pub open spec fn seconds_between(start: Timestamp, end: Timestamp) -> int {
    trunc_div(nanos_between(start, end), NANOS_PER_SECOND as int)
}

/// The whole seconds from `start` to `end`, rounded toward zero.
pub fn whole_seconds_between(start: Timestamp, end: Timestamp) -> (r: i64)
    ensures
        r == seconds_between(start, end),
{
    proof {
        use_type_invariant(&start);
        use_type_invariant(&end);
    }
    let diff: i128 = (end.secs as i128 - start.secs as i128) * 1_000_000_000i128 + (
    end.nanos as i128 - start.nanos as i128);
    if diff >= 0 {
        let q: i128 = diff / 1_000_000_000i128;
        assert(q <= 20_000_000_000_000i128) by (nonlinear_arith)
            requires
                q == diff / 1_000_000_000,
                diff <= 20_000_000_000_000 * 1_000_000_000,
                diff >= 0,
        ;
        q as i64
    } else {
        let q: i128 = (-diff) / 1_000_000_000i128;
        assert(q <= 20_000_000_000_000i128) by (nonlinear_arith)
            requires
                q == (-diff) / 1_000_000_000,
                -diff <= 20_000_000_000_000 * 1_000_000_000,
                -diff > 0,
        ;
        (-q) as i64
    }
}


/// What chrono renders for the instant `(secs, nanos)` shown in the time zone
/// named `timezone` (a chrono-tz name) with the strftime `pattern`: `None`
/// where the zone is unknown, the instant not representable or the pattern
/// invalid.
pub uninterp spec fn zoned_time_text(secs: i64, nanos: u32, timezone: Seq<char>, pattern: Seq<
    char,
>) -> Option<Seq<char>>;

/// What chrono renders for the instant `(secs, nanos)` shown in UTC with the
/// strftime `pattern`: `None` where the instant is not representable or the
/// pattern invalid.
pub uninterp spec fn utc_time_text(secs: i64, nanos: u32, pattern: Seq<char>) -> Option<Seq<char>>;

/// chrono's `DateTime::from_timestamp`, `with_timezone` (to the chrono-tz
/// zone that `timezone` names, parsed by `Tz::from_str`) and `format`:
/// the text is named `zoned_time_text` of the arguments.
#[verifier::external_body]
fn format_zoned(secs: i64, nanos: u32, timezone: &str, pattern: &str) -> (r: Option<String>)
    ensures
        crate::text::opt_text(r) == zoned_time_text(secs, nanos, timezone@, pattern@),
{
    let zone: chrono_tz::Tz = timezone.parse().ok()?;
    let time = chrono::DateTime::from_timestamp(secs, nanos)?;
    let mut text = String::new();
    write!(text, "{}", time.with_timezone(&zone).format(pattern)).ok()?;
    Some(text)
}

/// chrono's `DateTime::from_timestamp` and `format` in UTC: the text is
/// named `utc_time_text` of the arguments.
#[verifier::external_body]
fn format_utc(secs: i64, nanos: u32, pattern: &str) -> (r: Option<String>)
    ensures
        crate::text::opt_text(r) == utc_time_text(secs, nanos, pattern@),
{
    let time = chrono::DateTime::from_timestamp(secs, nanos)?;
    let mut text = String::new();
    write!(text, "{}", time.format(pattern)).ok()?;
    Some(text)
}

/// The wall-clock time (`%H:%M:%S`) of `time` in `timezone`, or the empty
/// text where the zone is unknown.
pub fn clock_text(time: &Timestamp, timezone: &str) -> (r: String)
    ensures
        r@ == text_or_empty(
            zoned_time_text(time.seconds(), time.subsec_nanos(), timezone@, "%H:%M:%S"@),
        ),
{
    match format_zoned(time.secs, time.nanos, timezone, "%H:%M:%S") {
        Some(t) => t,
        None => String::new(),
    }
}

/// The UTC stamp (`%Y%m%d_%H%M%S`) of `time`, as backup files are named.
pub fn utc_stamp(time: &Timestamp) -> (r: String)
    ensures
        r@ == text_or_empty(
            utc_time_text(time.seconds(), time.subsec_nanos(), "%Y%m%d_%H%M%S"@),
        ),
{
    match format_utc(time.secs, time.nanos, "%Y%m%d_%H%M%S") {
        Some(t) => t,
        None => String::new(),
    }
}

/// The largest number of seconds, either way, that chrono's
/// `TimeDelta::seconds` accepts.
pub const MAX_DELTA_SECONDS: i64 = 9_223_372_036_854_775;

/// `time` moved by `seconds` (chrono's `time + TimeDelta::seconds(seconds)`),
/// for a shift that chrono accepts and an instant that stays representable
/// (chrono panics otherwise).
pub fn shifted_by(time: &Timestamp, seconds: i64) -> (r: Timestamp)
    requires
        -MAX_DELTA_SECONDS <= seconds <= MAX_DELTA_SECONDS,
        EARLIEST_SECOND <= time.seconds() + seconds <= LATEST_SECOND,
    ensures
        r.seconds() == time.seconds() + seconds,
        r.subsec_nanos() == time.subsec_nanos(),
{
    proof {
        use_type_invariant(time);
    }
    Timestamp { secs: time.secs + seconds, nanos: time.nanos }
}

} // verus!
