//! The calendar event that records a game session, and the message given
//! when a session ends.
use vstd::prelude::*;
use crate::clock::{
    clock_text,
    seconds_between,
    trunc_div,
    trunc_rem,
    whole_seconds_between,
    zoned_time_text,
    Timestamp,
};
use crate::text::{
    decimal,
    count_text,
    int_text,
    lemma_decimal_chars,
    lemma_decimal_injective,
    lemma_replace_removes,
    line_count,
    line_count_of,
    lowercase,
    lowercase_text,
    replace_char,
    replace_char_text,
    text_or_empty,
};

verus! {

/// Who may see an event (iCalendar's `CLASS`).
#[derive(Clone, Copy, Debug, PartialEq, Eq)]
pub enum EventClass {
    Public,
    Private,
    Confidential,
}

/// How definite an event is (iCalendar's `STATUS` of an event).
#[derive(Clone, Copy, Debug, PartialEq, Eq)]
pub enum EventStatus {
    Tentative,
    Confirmed,
    Cancelled,
}

/// What the calendar event of a game session holds.
pub struct SessionEvent {
    /// The game.
    pub summary: String,
    pub description: String,
    /// `steam-{game in lower case, spaces as dashes}-{start second}`.
    pub uid: String,
    pub start: Timestamp,
    pub end: Timestamp,
    /// Confidential: only the calendar's owner sees what was played.
    pub class: EventClass,
    /// Confirmed: the session took place.
    pub status: EventStatus,
}

/// The description of a session during which no achievement was unlocked.
pub open spec fn no_achievement_description() -> Seq<char> {
    "No achievements unlocked during this session"@
}

/// The summary of a session of `game_info`: the game's name.
pub open spec fn session_summary(game_info: Seq<char>) -> Seq<char> {
    game_info
}

/// The description of a session that unlocked `achievements`.
pub open spec fn session_description(achievements: Seq<char>) -> Seq<char> {
    if achievements.len() == 0 {
        no_achievement_description()
    } else {
        "Achievements:\n"@ + achievements
    }
}

/// The unique id of an event, from the game's name in lower case and the
/// second its session started: `steam-{name, spaces as dashes}-{second}`.
pub open spec fn uid_of(lowercase_game: Seq<char>, start_second: int) -> Seq<char> {
    "steam-"@ + replace_char(lowercase_game, ' ', '-') + "-"@ + decimal(start_second)
}

/// The unique id of the event of a session of `game_info` started at the
/// second `start_second`.
pub open spec fn session_uid(game_info: Seq<char>, start_second: int) -> Seq<char> {
    uid_of(lowercase_text(game_info), start_second)
}

/// The unique id of an event, from the game's name in lower case and the
/// second its session started.
pub fn uid_text(lowercase_game: &str, start_second: i64) -> (r: String)
    ensures
        r@ == uid_of(lowercase_game@, start_second as int),
{
    let slug = replace_char_text(lowercase_game, ' ', '-');
    let mut uid = String::from_str("steam-");
    uid.append(slug.as_str());
    uid.append("-");
    let start_text = int_text(start_second);
    uid.append(start_text.as_str());
    uid
}

/// The event that records a session of `game_info` from `start` to `end`
/// during which the achievements listed in `achievements` were unlocked.
pub fn session_event(game_info: &str, achievements: &str, start: Timestamp, end: Timestamp) -> (r:
    SessionEvent)
    ensures
        r.summary@ == session_summary(game_info@),
        r.description@ == session_description(achievements@),
        r.uid@ == session_uid(game_info@, start.seconds() as int),
        r.start == start,
        r.end == end,
        r.class == EventClass::Confidential,
        r.status == EventStatus::Confirmed,
{
    let summary = String::from_str(game_info);
    let description = if achievements.unicode_len() == 0 {
        String::from_str("No achievements unlocked during this session")
    } else {
        let mut description = String::from_str("Achievements:\n");
        description.append(achievements);
        description
    };
    let lower = lowercase(game_info);
    let uid = uid_text(lower.as_str(), start.timestamp());
    SessionEvent {
        summary,
        description,
        uid,
        start,
        end,
        class: EventClass::Confidential,
        status: EventStatus::Confirmed,
    }
}

/// An event's id holds no space, whatever the game's name.
pub proof fn lemma_uid_has_no_space(game_info: Seq<char>, start_second: int)
    ensures
        !session_uid(game_info, start_second).contains(' '),
{
    let slug = replace_char(lowercase_text(game_info), ' ', '-');
    let uid = session_uid(game_info, start_second);
    lemma_replace_removes(lowercase_text(game_info), ' ', '-');
    reveal_strlit("steam-");
    reveal_strlit("-");
    assert forall|k: int| 0 <= k < uid.len() implies uid[k] != ' ' by {
        let a = "steam-"@;
        let b = a + slug;
        let c = b + "-"@;
        if k < a.len() {
            assert(uid[k] == a[k]);
        } else if k < b.len() {
            assert(uid[k] == slug[k - a.len()]);
        } else if k < c.len() {
            assert(uid[k] == '-');
        } else {
            assert(uid[k] == decimal(start_second)[k - c.len()]);
            lemma_decimal_chars(start_second, k - c.len());
        }
    }
}

/// Two sessions of a game that start at different seconds get different
/// event ids.
pub proof fn lemma_uid_distinguishes_starts(game_info: Seq<char>, first: int, second: int)
    requires
        session_uid(game_info, first) == session_uid(game_info, second),
    ensures
        first == second,
{
    let prefix = "steam-"@ + replace_char(lowercase_text(game_info), ' ', '-') + "-"@;
    assert(session_uid(game_info, first).skip(prefix.len() as int) =~= decimal(first));
    assert(session_uid(game_info, second).skip(prefix.len() as int) =~= decimal(second));
    lemma_decimal_injective(first, second);
}

/// How long a session of `total` whole seconds lasted, as it is reported:
/// `{h}h {m}m {s}s`, `{m}m {s}s` or `{s}s`.
pub open spec fn duration_text(total: int) -> Seq<char> {
    let hours = trunc_div(total, 3600);
    let minutes = trunc_rem(trunc_div(total, 60), 60);
    let seconds = trunc_rem(total, 60);
    if hours > 0 {
        decimal(hours) + "h "@ + decimal(minutes) + "m "@ + decimal(seconds) + "s"@
    } else if minutes > 0 {
        decimal(minutes) + "m "@ + decimal(seconds) + "s"@
    } else {
        decimal(seconds) + "s"@
    }
}

fn div_rem_toward_zero(a: i64, b: i64) -> (r: (i64, i64))
    requires
        b > 0,
    ensures
        r.0 == trunc_div(a as int, b as int),
        r.1 == trunc_rem(a as int, b as int),
{
    let wide: i128 = a as i128;
    let divisor: i128 = b as i128;
    let magnitude: i128 = if wide >= 0 { wide } else { -wide };
    let mq: i128 = magnitude / divisor;
    assert(0 <= mq <= magnitude) by (nonlinear_arith)
        requires
            mq == magnitude / divisor,
            magnitude >= 0,
            divisor >= 1,
    ;
    let q: i128 = if wide >= 0 { mq } else { -mq };
    assert(0 <= magnitude - divisor * mq < divisor) by (nonlinear_arith)
        requires
            mq == magnitude / divisor,
            magnitude >= 0,
            divisor >= 1,
    ;
    let small: i128 = magnitude - divisor * mq;
    let rem: i128 = if wide >= 0 { small } else { -small };
    assert(rem == wide - divisor * q) by (nonlinear_arith)
        requires
            small == magnitude - divisor * mq,
            wide >= 0 ==> rem == small && q == mq && magnitude == wide,
            wide < 0 ==> rem == -small && q == -mq && magnitude == -wide,
    ;
    (q as i64, rem as i64)
}

/// How long the session from `start` to `end` lasted, in whole seconds
/// rounded toward zero.
pub fn session_duration_text(start: &Timestamp, end: &Timestamp) -> (r: String)
    ensures
        r@ == duration_text(seconds_between(*start, *end)),
{
    let total = whole_seconds_between(*start, *end);
    let (hours, _) = div_rem_toward_zero(total, 3600);
    let (total_minutes, _) = div_rem_toward_zero(total, 60);
    let (_, minutes) = div_rem_toward_zero(total_minutes, 60);
    let (_, seconds) = div_rem_toward_zero(total, 60);
    let mut r = String::new();
    if hours > 0 {
        let t = int_text(hours);
        r.append(t.as_str());
        r.append("h ");
    }
    if hours > 0 || minutes > 0 {
        let t = int_text(minutes);
        r.append(t.as_str());
        r.append("m ");
    }
    let t = int_text(seconds);
    r.append(t.as_str());
    r.append("s");
    r
}

/// The message given when a session of `game_info` from `start` to `end`
/// ends at `now`: `{clock}: Stopped playing at {game}{unlocked} (for
/// {duration})`, where `{unlocked}` is `, {n} achievements unlocked` for `n`
/// lines of achievements, or nothing.
pub open spec fn session_end_text(
    clock: Seq<char>,
    game_info: Seq<char>,
    achievements: Seq<char>,
    duration: Seq<char>,
) -> Seq<char> {
    clock + ": Stopped playing at "@ + game_info + (if achievements.len() == 0 {
        Seq::empty()
    } else {
        ", "@ + decimal(line_count_of(achievements) as int) + " achievements unlocked"@
    }) + " (for "@ + duration + ")"@
}

/// The message given when a session of `game_info` from `start` to `end`
/// ends, at `now` in `timezone`, having unlocked `achievements`.
pub fn session_end_message(
    now: &Timestamp,
    timezone: &str,
    game_info: &str,
    achievements: &str,
    start: &Timestamp,
    end: &Timestamp,
) -> (r: String)
    ensures
        r@ == session_end_text(
            text_or_empty(
                zoned_time_text(now.seconds(), now.subsec_nanos(), timezone@, "%H:%M:%S"@),
            ),
            game_info@,
            achievements@,
            duration_text(seconds_between(*start, *end)),
        ),
{
    let clock = clock_text(now, timezone);
    let duration = session_duration_text(start, end);
    session_end_line(clock.as_str(), game_info, achievements, duration.as_str())
}

/// The message given when a session of `game_info` that unlocked
/// `achievements` and lasted `duration` ends at the wall-clock time `clock`.
pub fn session_end_line(clock: &str, game_info: &str, achievements: &str, duration: &str) -> (r:
    String)
    ensures
        r@ == session_end_text(clock@, game_info@, achievements@, duration@),
{
    let mut r = String::from_str(clock);
    r.append(": Stopped playing at ");
    r.append(game_info);
    if achievements.unicode_len() != 0 {
        r.append(", ");
        let count = count_text(line_count(achievements));
        r.append(count.as_str());
        r.append(" achievements unlocked");
    }
    r.append(" (for ");
    r.append(duration);
    r.append(")");
    r
}

/// A session's reported duration splits its whole seconds into hours,
/// minutes below an hour and seconds below a minute, which add up to it.
pub proof fn lemma_duration_parts(total: int)
    requires
        total >= 0,
    ensures
        trunc_div(total, 3600) * 3600 + trunc_rem(trunc_div(total, 60), 60) * 60 + trunc_rem(
            total,
            60,
        ) == total,
        0 <= trunc_rem(trunc_div(total, 60), 60) < 60,
        0 <= trunc_rem(total, 60) < 60,
{
    let m = total / 60;
    assert(total / 3600 == m / 60) by (nonlinear_arith)
        requires
            m == total / 60,
            total >= 0,
    ;
    assert(m * 60 + total % 60 == total) by (nonlinear_arith)
        requires
            m == total / 60,
            total >= 0,
    ;
    assert((m / 60) * 60 + m % 60 == m) by (nonlinear_arith)
        requires
            m >= 0,
    ;
}

/// The reported duration of a session of `total` whole seconds, split into
/// `hours`, `minutes` below an hour and `seconds` below a minute that add up
/// to it: `{hours}h {minutes}m {seconds}s`, without the hours where there
/// are none, and without the minutes too where there are none of either.
pub proof fn lemma_duration_text_parts(total: int, hours: int, minutes: int, seconds: int)
    requires
        hours >= 0,
        0 <= minutes < 60,
        0 <= seconds < 60,
        hours * 3600 + minutes * 60 + seconds == total,
    ensures
        duration_text(total) == (if hours > 0 {
            decimal(hours) + "h "@ + decimal(minutes) + "m "@ + decimal(seconds) + "s"@
        } else if minutes > 0 {
            decimal(minutes) + "m "@ + decimal(seconds) + "s"@
        } else {
            decimal(seconds) + "s"@
        }),
{
    let m = hours * 60 + minutes;
    assert(total == m * 60 + seconds) by (nonlinear_arith)
        requires
            hours * 3600 + minutes * 60 + seconds == total,
            m == hours * 60 + minutes,
    ;
    vstd::arithmetic::div_mod::lemma_fundamental_div_mod_converse(total, 60, m, seconds);
    vstd::arithmetic::div_mod::lemma_fundamental_div_mod_converse(m, 60, hours, minutes);
    assert(total == hours * 3600 + (minutes * 60 + seconds));
    assert(0 <= minutes * 60 + seconds < 3600);
    vstd::arithmetic::div_mod::lemma_fundamental_div_mod_converse(
        total,
        3600,
        hours,
        minutes * 60 + seconds,
    );
    assert(total >= 0) by (nonlinear_arith)
        requires
            hours >= 0,
            minutes >= 0,
            seconds >= 0,
            hours * 3600 + minutes * 60 + seconds == total,
    ;
    assert(m >= 0) by (nonlinear_arith)
        requires
            hours >= 0,
            minutes >= 0,
            m == hours * 60 + minutes,
    ;
}

/// A session of a negative number of seconds (one that ended before it
/// began) is reported by its seconds below a minute alone, counted toward
/// zero: hours and minutes are never positive there.
pub proof fn lemma_negative_duration_text(total: int)
    requires
        total < 0,
    ensures
        duration_text(total) == decimal(-((-total) % 60)) + "s"@,
{
    let p = -total;
    assert(p / 3600 >= 0 && p / 60 >= 0) by (nonlinear_arith)
        requires
            p > 0,
    ;
    assert(trunc_div(total, 3600) <= 0);
    assert(trunc_div(total, 60) <= 0);
    assert((p / 60) % 60 >= 0) by (nonlinear_arith)
        requires
            p / 60 >= 0,
    ;
    assert(trunc_div(total, 60) == -(p / 60));
    assert(trunc_rem(trunc_div(total, 60), 60) <= 0) by (nonlinear_arith)
        requires
            trunc_div(total, 60) <= 0,
            trunc_rem(trunc_div(total, 60), 60) == trunc_div(total, 60) - 60 * trunc_div(
                trunc_div(total, 60),
                60,
            ),
            trunc_div(trunc_div(total, 60), 60) == -((-trunc_div(total, 60)) / 60),
    ;
    assert(trunc_rem(total, 60) == total - 60 * (-(p / 60)));
    assert(p - 60 * (p / 60) == p % 60) by (nonlinear_arith)
        requires
            p > 0,
    ;
}

} // verus!
