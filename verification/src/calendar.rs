//! The calendar of game sessions: where its backups go, how it is read,
//! merged and extended with a session's event (through icalendar), and how
//! an event is published over CalDAV.
use vstd::prelude::*;
use chrono::DateTime;
use icalendar::{Class, Component, Event, EventLike, EventStatus as IcalStatus};
use crate::clock::{seconds_between, utc_stamp, utc_time_text, zoned_time_text, Timestamp};
use crate::config::Config;
use crate::session::{
    duration_text,
    session_description,
    session_end_message,
    session_end_text,
    session_event,
    session_summary,
    session_uid,
    EventClass,
    EventStatus,
    SessionEvent,
};
use crate::text::{opt_text, text_or_empty, utf8_decode};

verus! {

/// The view of an optional optional `String`.
pub open spec fn opt_opt_text(o: Option<Option<String>>) -> Option<Option<Seq<char>>> {
    match o {
        Some(t) => Some(opt_text(t)),
        None => None,
    }
}

/// What std's `Path::parent` gives for the path `path`, as text (the inner
/// `None` where it is not valid UTF-8).
pub uninterp spec fn path_parent(path: Seq<char>) -> Option<Option<Seq<char>>>;

/// What std's `Path::file_stem` gives for the path `path`, as text.
pub uninterp spec fn path_file_stem(path: Seq<char>) -> Option<Option<Seq<char>>>;

/// What std's `Path::extension` gives for the path `path`, as text.
pub uninterp spec fn path_extension(path: Seq<char>) -> Option<Option<Seq<char>>>;

/// std's `Path::parent` (with `OsStr::to_str`): named `path_parent`.
#[verifier::external_body]
fn parent_of(path: &str) -> (r: Option<Option<String>>)
    ensures
        opt_opt_text(r) == path_parent(path@),
{
    match std::path::Path::new(path).parent() {
        Some(p) => Some(p.to_str().map(String::from)),
        None => None,
    }
}

/// std's `Path::file_stem` (with `OsStr::to_str`): named `path_file_stem`.
#[verifier::external_body]
fn file_stem_of(path: &str) -> (r: Option<Option<String>>)
    ensures
        opt_opt_text(r) == path_file_stem(path@),
{
    match std::path::Path::new(path).file_stem() {
        Some(p) => Some(p.to_str().map(String::from)),
        None => None,
    }
}

/// std's `Path::extension` (with `OsStr::to_str`): named `path_extension`.
#[verifier::external_body]
fn extension_of(path: &str) -> (r: Option<Option<String>>)
    ensures
        opt_opt_text(r) == path_extension(path@),
{
    match std::path::Path::new(path).extension() {
        Some(p) => Some(p.to_str().map(String::from)),
        None => None,
    }
}

/// The text of a path part, or `fallback` where it is not valid UTF-8.
pub open spec fn part_or(part: Option<Seq<char>>, fallback: Seq<char>) -> Seq<char> {
    match part {
        Some(t) => t,
        None => fallback,
    }
}

/// Where the backup of the calendar at `calendar_path` taken at the stamp
/// `utc` goes, given the path's parent, file stem and extension (each as
/// text, the inner `None` where it is not valid UTF-8):
/// `{parent}/{utc}.{stem}.{extension}.bak`, or `{utc}.{calendar_path}.bak`
/// when the parent is empty; an error when the path lacks a parent, a file
/// stem or an extension.
pub open spec fn backup_path_of_parts(
    calendar_path: Seq<char>,
    utc: Seq<char>,
    parent: Option<Option<Seq<char>>>,
    file_stem: Option<Option<Seq<char>>>,
    extension: Option<Option<Seq<char>>>,
) -> Result<Seq<char>, Seq<char>> {
    match (parent, file_stem, extension) {
        (Some(parent), Some(stem), Some(ext)) => {
            let parent = part_or(parent, "."@);
            if parent.len() == 0 {
                Ok(utc + "."@ + calendar_path + ".bak"@)
            } else {
                Ok(parent + "/"@ + utc + "."@ + part_or(stem, "NO_FILE_STEM"@) + "."@ + part_or(
                    ext,
                    "UNKNOWN_EXTENSION"@,
                ) + ".bak"@)
            }
        },
        _ => Err("Failed to create a correct backup_path: calendar_path: "@ + calendar_path),
    }
}

/// Where the backup of the calendar at `calendar_path` taken at the stamp
/// `utc` goes, with the path's parts as std's `Path` gives them.
pub open spec fn backup_path_spec(calendar_path: Seq<char>, utc: Seq<char>) -> Result<
    Seq<char>,
    Seq<char>,
> {
    backup_path_of_parts(
        calendar_path,
        utc,
        path_parent(calendar_path),
        path_file_stem(calendar_path),
        path_extension(calendar_path),
    )
}

fn text_of(part: &Option<String>, fallback: &str) -> (r: String)
    ensures
        r@ == part_or(opt_text(*part), fallback@),
{
    match part {
        Some(t) => t.clone(),
        None => String::from_str(fallback),
    }
}

/// Where the backup of the calendar at `calendar_path` taken at the stamp
/// `utc` goes, given the path's parent, file stem and extension (see
/// `backup_path_of_parts`).
pub fn backup_path_from_parts(
    calendar_path: &str,
    utc: &str,
    parent: Option<Option<String>>,
    file_stem: Option<Option<String>>,
    extension: Option<Option<String>>,
) -> (r: Result<String, String>)
    ensures
        match (
            r,
            backup_path_of_parts(
                calendar_path@,
                utc@,
                opt_opt_text(parent),
                opt_opt_text(file_stem),
                opt_opt_text(extension),
            ),
        ) {
            (Ok(p), Ok(q)) => p@ == q,
            (Err(e), Err(f)) => e@ == f,
            _ => false,
        },
{
    match (parent, file_stem, extension) {
        (Some(parent), Some(file_stem), Some(ext)) => {
            let parent = text_of(&parent, ".");
            if parent.as_str().unicode_len() == 0 {
                let mut r = String::from_str(utc);
                r.append(".");
                r.append(calendar_path);
                r.append(".bak");
                Ok(r)
            } else {
                let mut r = parent;
                r.append("/");
                r.append(utc);
                r.append(".");
                let stem = text_of(&file_stem, "NO_FILE_STEM");
                r.append(stem.as_str());
                r.append(".");
                let ext = text_of(&ext, "UNKNOWN_EXTENSION");
                r.append(ext.as_str());
                r.append(".bak");
                Ok(r)
            }
        },
        (_, _, _) => {
            let mut e = String::from_str("Failed to create a correct backup_path: calendar_path: ");
            e.append(calendar_path);
            Err(e)
        },
    }
}

/// Where the backup of the calendar at `calendar_path` taken at the stamp
/// `utc` goes (see `backup_path_spec`).
pub fn backup_path(calendar_path: &str, utc: &str) -> (r: Result<String, String>)
    ensures
        match (r, backup_path_spec(calendar_path@, utc@)) {
            (Ok(p), Ok(q)) => p@ == q,
            (Err(e), Err(f)) => e@ == f,
            _ => false,
        },
{
    let parent = parent_of(calendar_path);
    let file_stem = file_stem_of(calendar_path);
    let extension = extension_of(calendar_path);
    backup_path_from_parts(calendar_path, utc, parent, file_stem, extension)
}

/// Where a session's calendar backup is written: the backup path, or else,
/// as a file name, the message `Failed to set up a correct backup path:
/// {error}`.
pub open spec fn session_backup_target(calendar_path: Seq<char>, utc: Seq<char>) -> Seq<char> {
    match backup_path_spec(calendar_path, utc) {
        Ok(p) => p,
        Err(e) => "Failed to set up a correct backup path: "@ + e,
    }
}

/// Where the calendar is backed up before an upload replaces it:
/// `{calendar_path}.{utc}.bak`.
pub fn upload_backup_path(calendar_path: &str, utc: &str) -> (r: String)
    ensures
        r@ == calendar_path@ + "."@ + utc@ + ".bak"@,
{
    let mut r = String::from_str(calendar_path);
    r.append(".");
    r.append(utc);
    r.append(".bak");
    r
}


/// icalendar's calendar.
#[verifier::external_type_specification]
#[verifier::external_body]
pub struct ExCalendar(icalendar::Calendar);

/// icalendar's calendar component (an event, a to-do, a venue...).
#[verifier::external_type_specification]
#[verifier::external_body]
pub struct ExCalendarComponent(icalendar::CalendarComponent);

/// icalendar's event.
#[verifier::external_type_specification]
#[verifier::external_body]
pub struct ExEvent(icalendar::Event);

/// The components that a calendar holds, in order.
pub uninterp spec fn calendar_components(calendar: icalendar::Calendar) -> Seq<
    icalendar::CalendarComponent,
>;

/// The calendar's name, as icalendar's `Calendar::get_name` gives it.
pub uninterp spec fn calendar_name(calendar: icalendar::Calendar) -> Option<Seq<char>>;

/// What icalendar's `Calendar::from_str` gives for a text: `None` where it
/// refuses the text, else the calendar read from it.
pub uninterp spec fn parsed_calendar(text: Seq<char>) -> Option<icalendar::Calendar>;

/// What icalendar's `Calendar::new().name(name).done()` gives: a new
/// calendar named `name`.
pub uninterp spec fn named_new_calendar(name: Seq<char>) -> icalendar::Calendar;

/// The calendar that icalendar's `Calendar::push` of `component` leaves.
pub uninterp spec fn calendar_pushed(
    calendar: icalendar::Calendar,
    component: icalendar::CalendarComponent,
) -> icalendar::Calendar;

/// icalendar's `CalendarComponent::from` an event.
pub uninterp spec fn component_of_event(event: icalendar::Event) -> icalendar::CalendarComponent;

/// The event's id, as icalendar's `EventLike::get_uid` gives it.
pub uninterp spec fn event_uid_of(event: icalendar::Event) -> Option<Seq<char>>;

/// The event that icalendar's `Event::new()` builds with the given summary,
/// description, start and end instants (seconds and nanoseconds since the
/// Unix epoch, UTC), visibility class, status and id.
pub uninterp spec fn session_ical_event_of(
    summary: Seq<char>,
    description: Seq<char>,
    uid: Seq<char>,
    start_seconds: i64,
    start_nanos: u32,
    end_seconds: i64,
    end_nanos: u32,
    class: EventClass,
    status: EventStatus,
) -> icalendar::Event;

/// The text that icalendar writes for a calendar, given what it chooses at
/// the time of writing, in the order in which it writes them: `stamps`, the
/// time of writing as the `DTSTAMP` of each component that has none; `ids`,
/// the random `UID` of each component that has none; `orders`, the order in
/// which the parameters of each property come (they are held in a hash map).
pub uninterp spec fn calendar_text_with(
    calendar: icalendar::Calendar,
    stamps: Seq<Seq<char>>,
    ids: Seq<Seq<char>>,
    orders: Seq<Seq<int>>,
) -> Seq<char>;

/// The text that icalendar writes for an event, given what it chooses at
/// the time of writing (as for `calendar_text_with`).
pub uninterp spec fn event_text_with(
    event: icalendar::Event,
    stamps: Seq<Seq<char>>,
    ids: Seq<Seq<char>>,
    orders: Seq<Seq<int>>,
) -> Seq<char>;

/// Every text that a property of the calendar holds, at any depth: keys,
/// parameter names and values, and values.
pub uninterp spec fn calendar_property_texts(calendar: icalendar::Calendar) -> Set<Seq<char>>;

/// Every text that a property of the component holds, at any depth: keys,
/// parameter names and values, and values.
pub uninterp spec fn component_property_texts(component: icalendar::CalendarComponent) -> Set<
    Seq<char>,
>;

/// Whether a character lies outside ASCII.
pub open spec fn non_ascii(c: char) -> bool {
    (c as u32) > 127
}

/// A text in which no two characters outside ASCII stand side by side.
/// icalendar folds every written property line longer than 75 bytes; a line
/// made of such texts (joined by ASCII) it folds in finite time and without
/// slicing out of order, which it does not do for every text.
pub open spec fn foldable(t: Seq<char>) -> bool {
    forall|i: int| 0 <= i && i + 1 < t.len() ==> !(non_ascii(t[i]) && non_ascii(#[trigger] t[i + 1]))
}

/// The characters that unfolding an iCalendar text can remove.
pub open spec fn fold_space(c: char) -> bool {
    c == '\r' || c == '\n' || c == ' ' || c == '\t'
}

/// The text without its carriage returns, line feeds, spaces and tabs.
pub open spec fn without_fold_spaces(t: Seq<char>) -> Seq<char>
    decreases t.len(),
{
    if t.len() == 0 {
        Seq::empty()
    } else if fold_space(t.last()) {
        without_fold_spaces(t.drop_last())
    } else {
        without_fold_spaces(t.drop_last()).push(t.last())
    }
}

/// A text in which between any two characters outside ASCII stands some
/// character other than a carriage return, line feed, space or tab: every
/// text that a property read from it holds is then foldable.
pub open spec fn spaced_text(t: Seq<char>) -> bool {
    foldable(without_fold_spaces(t))
}

/// Whether every one of the texts is foldable.
pub open spec fn writable_texts(texts: Set<Seq<char>>) -> bool {
    forall|t: Seq<char>| texts.contains(t) ==> foldable(t)
}

/// A calendar that icalendar can write: its property texts are foldable.
pub open spec fn writable_calendar(calendar: icalendar::Calendar) -> bool {
    writable_texts(calendar_property_texts(calendar))
}

/// An event that icalendar can write: its property texts are foldable.
pub open spec fn writable_event(event: icalendar::Event) -> bool {
    writable_texts(component_property_texts(component_of_event(event)))
}

/// Adding one character to a text keeps it foldable unless both it and the
/// last character lie outside ASCII.
pub proof fn lemma_foldable_push(t: Seq<char>, c: char)
    ensures
        foldable(t.push(c)) == (foldable(t) && !(t.len() > 0 && non_ascii(t.last()) && non_ascii(
            c,
        ))),
{
    let u = t.push(c);
    if foldable(u) {
        assert forall|i: int| 0 <= i && i + 1 < t.len() implies !(non_ascii(t[i]) && non_ascii(
            #[trigger] t[i + 1],
        )) by {
            assert(u[i] == t[i] && u[i + 1] == t[i + 1]);
        }
        if t.len() > 0 {
            let k = t.len() - 1;
            assert(u[k] == t.last() && u[k + 1] == c);
            assert(!(non_ascii(u[k]) && non_ascii(u[k + 1])));
        }
    }
    if foldable(t) && !(t.len() > 0 && non_ascii(t.last()) && non_ascii(c)) {
        assert forall|i: int| 0 <= i && i + 1 < u.len() implies !(non_ascii(u[i]) && non_ascii(
            #[trigger] u[i + 1],
        )) by {
            if i + 1 < t.len() {
                assert(u[i] == t[i] && u[i + 1] == t[i + 1]);
            } else {
                assert(u[i] == t.last() && u[i + 1] == c);
            }
        }
    }
}

/// A text of ASCII characters alone is spaced.
pub proof fn lemma_ascii_spaced(t: Seq<char>)
    requires
        forall|i: int| 0 <= i < t.len() ==> !non_ascii(#[trigger] t[i]),
    ensures
        spaced_text(t),
        forall|i: int|
            0 <= i < without_fold_spaces(t).len() ==> !non_ascii(#[trigger] without_fold_spaces(t)[i]),
    decreases t.len(),
{
    if t.len() > 0 {
        let p = t.drop_last();
        assert forall|i: int| 0 <= i < p.len() implies !non_ascii(#[trigger] p[i]) by {
            assert(p[i] == t[i]);
        }
        lemma_ascii_spaced(p);
        let w = without_fold_spaces(p);
        if !fold_space(t.last()) {
            assert(!non_ascii(t[t.len() - 1]));
            lemma_foldable_push(w, t.last());
            assert forall|i: int| 0 <= i < w.push(t.last()).len() implies !non_ascii(
                #[trigger] w.push(t.last())[i],
            ) by {
                if i < w.len() {
                    assert(w.push(t.last())[i] == w[i]);
                }
            }
        }
    }
}

/// Whether no two characters outside ASCII stand side by side in `t`.
pub fn text_is_foldable(t: &str) -> (r: bool)
    ensures
        r == foldable(t@),
{
    let n = t.unicode_len();
    let mut ok = true;
    let mut i: usize = 0;
    while i < n
        invariant
            n == t@.len(),
            i <= n,
            ok == foldable(t@.take(i as int)),
        decreases n - i,
    {
        let c = t.get_char(i);
        let outside = (c as u32) > 127;
        proof {
            lemma_foldable_push(t@.take(i as int), c);
        }
        if i > 0 {
            let b = t.get_char(i - 1);
            assert(t@.take(i as int).last() == b);
            ok = ok && !(outside && (b as u32) > 127);
        }
        assert(t@.take(i + 1) =~= t@.take(i as int).push(c));
        i = i + 1;
    }
    assert(t@.take(n as int) =~= t@);
    ok
}

/// Whether `t` is spaced: between any two characters outside ASCII stands
/// some character other than a carriage return, line feed, space or tab.
pub fn text_is_spaced(t: &str) -> (r: bool)
    ensures
        r == spaced_text(t@),
{
    let n = t.unicode_len();
    let mut ok = true;
    let mut last_outside = false;
    let mut i: usize = 0;
    while i < n
        invariant
            n == t@.len(),
            i <= n,
            ok == foldable(without_fold_spaces(t@.take(i as int))),
            last_outside == (without_fold_spaces(t@.take(i as int)).len() > 0 && non_ascii(
                without_fold_spaces(t@.take(i as int)).last(),
            )),
        decreases n - i,
    {
        let c = t.get_char(i);
        let ghost w = without_fold_spaces(t@.take(i as int));
        assert(t@.take(i + 1).drop_last() =~= t@.take(i as int));
        if !(c == '\r' || c == '\n' || c == ' ' || c == '\t') {
            let outside = (c as u32) > 127;
            proof {
                lemma_foldable_push(w, c);
            }
            ok = ok && !(last_outside && outside);
            last_outside = outside;
        }
        i = i + 1;
    }
    assert(t@.take(n as int) =~= t@);
    ok
}

/// Whether icalendar's `Calendar::from_str` accepts the text.
pub open spec fn calendar_text_parses(text: Seq<char>) -> bool {
    parsed_calendar(text) is Some
}

/// The calendar read from a text, or `fallback` where it does not parse.
pub open spec fn parsed_or(text: Seq<char>, fallback: icalendar::Calendar) -> icalendar::Calendar {
    match parsed_calendar(text) {
        Some(c) => c,
        None => fallback,
    }
}

/// The components read from a text, or none where it does not parse.
pub open spec fn parsed_or_empty(text: Seq<char>) -> Seq<icalendar::CalendarComponent> {
    match parsed_calendar(text) {
        Some(c) => calendar_components(c),
        None => Seq::empty(),
    }
}

/// icalendar's `Calendar::new`: a calendar with no component and no name,
/// whose properties (version, product id, calendar scale) are ASCII.
#[verifier::external_body]
fn calendar_new() -> (r: icalendar::Calendar)
    ensures
        calendar_components(r) == Seq::<icalendar::CalendarComponent>::empty(),
        calendar_name(r) is None,
        writable_calendar(r),
{
    icalendar::Calendar::new()
}

/// icalendar's `Calendar::default`: a calendar with no component and no
/// name, whose properties (version, product id, calendar scale) are ASCII.
#[verifier::external_body]
fn calendar_default() -> (r: icalendar::Calendar)
    ensures
        calendar_components(r) == Seq::<icalendar::CalendarComponent>::empty(),
        calendar_name(r) is None,
        writable_calendar(r),
{
    icalendar::Calendar::default()
}

/// icalendar's `Calendar::new().name(name).done()`: a new calendar, named
/// `name`, with no component; its properties are ASCII but for the name.
#[verifier::external_body]
fn new_named_calendar(name: &str) -> (r: icalendar::Calendar)
    ensures
        r == named_new_calendar(name@),
        calendar_components(r) == Seq::<icalendar::CalendarComponent>::empty(),
        calendar_name(r) == Some(name@),
        foldable(name@) ==> writable_calendar(r),
{
    icalendar::Calendar::new().name(name).done()
}

/// icalendar's `Calendar::done`: the calendar moves out, with its
/// properties and components, leaving an empty one behind.
#[verifier::external_body]
fn calendar_done(calendar: &mut icalendar::Calendar) -> (r: icalendar::Calendar)
    ensures
        calendar_components(r) == calendar_components(*old(calendar)),
        calendar_name(r) == calendar_name(*old(calendar)),
        calendar_property_texts(r) == calendar_property_texts(*old(calendar)),
        calendar_components(*final(calendar)) == Seq::<icalendar::CalendarComponent>::empty(),
{
    calendar.done()
}

/// icalendar's `Calendar::from_str`: the calendar read from the text, as
/// `parsed_calendar` names it, `None` where the text does not parse. Each
/// text that a property read holds is a piece of the unfolded text (which
/// lacks only some carriage returns, line feeds, spaces and tabs of the
/// text), with escapes of two ASCII characters turned into one: so two
/// characters outside ASCII stand side by side in it only where nothing but
/// such characters stood between them in the text.
#[verifier::external_body]
fn calendar_parse(text: &str) -> (r: Option<icalendar::Calendar>)
    ensures
        r == parsed_calendar(text@),
        r matches Some(c) ==> (spaced_text(text@) ==> writable_calendar(c)),
{
    <icalendar::Calendar as std::str::FromStr>::from_str(text).ok()
}

/// icalendar's public `Calendar::components` field, moved out: each
/// component's property texts are among the calendar's.
#[verifier::external_body]
fn calendar_into_components(calendar: icalendar::Calendar) -> (r: Vec<
    icalendar::CalendarComponent,
>)
    ensures
        r@ == calendar_components(calendar),
        forall|i: int|
            0 <= i < r@.len() ==> component_property_texts(#[trigger] r@[i]).subset_of(
                calendar_property_texts(calendar),
            ),
{
    calendar.components
}

/// icalendar's `Calendar::push`: the component goes at the end; the name
/// stays, and the component's property texts join the calendar's.
#[verifier::external_body]
fn calendar_push(calendar: &mut icalendar::Calendar, component: icalendar::CalendarComponent)
    ensures
        *final(calendar) == calendar_pushed(*old(calendar), component),
        calendar_components(*final(calendar)) == calendar_components(*old(calendar)).push(
            component,
        ),
        calendar_name(*final(calendar)) == calendar_name(*old(calendar)),
        calendar_property_texts(*final(calendar)) == calendar_property_texts(*old(calendar)).union(
            component_property_texts(component),
        ),
{
    calendar.push(component);
}

/// icalendar's `CalendarComponent::from` a copy of an event.
#[verifier::external_body]
fn event_component(event: &icalendar::Event) -> (r: icalendar::CalendarComponent)
    ensures
        r == component_of_event(*event),
{
    icalendar::CalendarComponent::from(event.clone())
}

/// An iCalendar text: a `BEGIN:VCALENDAR` line, the calendar's lines, and
/// an `END:VCALENDAR` line, each line ending with CRLF.
pub open spec fn vcalendar_text(text: Seq<char>) -> bool {
    exists|body: Seq<char>| text == "BEGIN:VCALENDAR\r\n"@ + body + "END:VCALENDAR\r\n"@
}

/// The text of an event: a `BEGIN:VEVENT` line, the event's lines, and an
/// `END:VEVENT` line, each line ending with CRLF.
pub open spec fn vevent_text(text: Seq<char>) -> bool {
    exists|body: Seq<char>| text == "BEGIN:VEVENT\r\n"@ + body + "END:VEVENT\r\n"@
}

/// icalendar's `Display` of a calendar: `BEGIN:VCALENDAR`, the properties
/// and components, and `END:VCALENDAR`, each line ending with CRLF. It is
/// called only on a writable calendar: on some texts with characters outside
/// ASCII side by side, icalendar's folding of long lines never ends or
/// panics. Which
/// stamps, ids and parameter orders it chooses while writing is not stated:
/// they come from the clock, a random number generator and a hash map's
/// seed.
#[verifier::external_body]
fn calendar_text(calendar: &icalendar::Calendar) -> (r: String)
    requires
        writable_calendar(*calendar),
    ensures
        vcalendar_text(r@),
        exists|stamps: Seq<Seq<char>>, ids: Seq<Seq<char>>, orders: Seq<Seq<int>>|
            r@ == calendar_text_with(*calendar, stamps, ids, orders),
{
    calendar.to_string()
}

/// icalendar's `Component::to_string` of an event: `BEGIN:VEVENT`, the
/// properties, and `END:VEVENT`, each line ending with CRLF, for a writable
/// event. What it chooses while writing is not stated (see `calendar_text`).
#[verifier::external_body]
fn event_text(event: &icalendar::Event) -> (r: String)
    requires
        writable_event(*event),
    ensures
        vevent_text(r@),
        exists|stamps: Seq<Seq<char>>, ids: Seq<Seq<char>>, orders: Seq<Seq<int>>|
            r@ == event_text_with(*event, stamps, ids, orders),
{
    Component::to_string(event)
}

/// icalendar's `EventLike::get_uid`, as `event_uid_of` names it.
#[verifier::external_body]
fn event_uid(event: &icalendar::Event) -> (r: Option<String>)
    ensures
        opt_text(r) == event_uid_of(*event),
{
    event.get_uid().map(String::from)
}

/// icalendar's `Event::new`, `summary`, `description`, `starts`, `class`,
/// `status`, `ends`, `uid` and `done`, with chrono's
/// `DateTime::from_timestamp` for the two instants (which it accepts for
/// every representable instant): the event that `session_ical_event_of`
/// names, whose id is the given one. Its other property texts (keys, the
/// instants, class and status) are ASCII.
#[verifier::external_body]
fn session_ical_event(event: &SessionEvent) -> (r: icalendar::Event)
    requires
        event.start.valid(),
        event.end.valid(),
    ensures
        r == session_ical_event_of(
            event.summary@,
            event.description@,
            event.uid@,
            event.start.seconds(),
            event.start.subsec_nanos(),
            event.end.seconds(),
            event.end.subsec_nanos(),
            event.class,
            event.status,
        ),
        event_uid_of(r) == Some(event.uid@),
        foldable(event.summary@) && foldable(event.description@) && foldable(event.uid@)
            ==> writable_event(r),
{
    let start = DateTime::from_timestamp(event.start.timestamp(), event.start.nanoseconds());
    let end = DateTime::from_timestamp(event.end.timestamp(), event.end.nanoseconds());
    let class = match event.class {
        EventClass::Public => Class::Public,
        EventClass::Private => Class::Private,
        EventClass::Confidential => Class::Confidential,
    };
    let status = match event.status {
        EventStatus::Tentative => IcalStatus::Tentative,
        EventStatus::Confirmed => IcalStatus::Confirmed,
        EventStatus::Cancelled => IcalStatus::Cancelled,
    };
    Event::new().summary(&event.summary).description(&event.description).starts(start.unwrap())
        .class(class).status(status).ends(end.unwrap()).uid(&event.uid).done()
}

/// What is known of the calendar file: missing, present but unreadable, or
/// its text.
pub enum StoredCalendar {
    Missing,
    Unreadable,
    Text(String),
}

/// Whether a calendar read from what is known of the calendar file can be
/// written: its text, where there is one, is spaced.
pub open spec fn stored_spaced(stored: StoredCalendar) -> bool {
    match stored {
        StoredCalendar::Text(t) => spaced_text(t@),
        _ => true,
    }
}

/// Whether a calendar read from what is known of the calendar file can be
/// written (see `stored_spaced`).
pub fn stored_calendar_writable(stored: &StoredCalendar) -> (r: bool)
    ensures
        r == stored_spaced(*stored),
{
    match stored {
        StoredCalendar::Text(t) => text_is_spaced(t.as_str()),
        _ => true,
    }
}

/// The text read in place of an unreadable calendar file is spaced.
proof fn lemma_empty_calendar_text_spaced()
    ensures
        spaced_text("BEGIN:VCALENDAR\nEND:VCALENDAR"@),
        spaced_text(""@),
{
    let t = "BEGIN:VCALENDAR\nEND:VCALENDAR";
    reveal_strlit("BEGIN:VCALENDAR\nEND:VCALENDAR");
    reveal_strlit("");
    assert forall|i: int| 0 <= i < t@.len() implies !non_ascii(#[trigger] t@[i]) by {}
    lemma_ascii_spaced(t@);
    lemma_ascii_spaced(""@);
}

/// The components that an upload is merged after: those read from the
/// stored calendar's text, none when it is missing, unreadable or does not
/// parse.
pub open spec fn merge_base_components(stored: StoredCalendar) -> Seq<icalendar::CalendarComponent> {
    match stored {
        StoredCalendar::Text(t) => parsed_or_empty(t@),
        _ => Seq::empty(),
    }
}

/// The components of the calendar that a session's event is added to: none
/// when the file is missing, else those read from the file's text (from an
/// empty calendar's text when it is unreadable), none when it does not parse.
pub open spec fn session_calendar_components(stored: StoredCalendar) -> Seq<
    icalendar::CalendarComponent,
> {
    match stored {
        StoredCalendar::Missing => Seq::empty(),
        StoredCalendar::Unreadable => parsed_or_empty("BEGIN:VCALENDAR\nEND:VCALENDAR"@),
        StoredCalendar::Text(t) => parsed_or_empty(t@),
    }
}

/// The calendar that a session's event is added to, where it is one read
/// or made: a new calendar named `Game Sessions` when the file is missing,
/// else the calendar read from the file's text (from an empty calendar's
/// text when it is unreadable); `None` where that text does not parse.
pub open spec fn session_base(stored: StoredCalendar) -> Option<icalendar::Calendar> {
    match stored {
        StoredCalendar::Missing => Some(named_new_calendar("Game Sessions"@)),
        StoredCalendar::Unreadable => parsed_calendar("BEGIN:VCALENDAR\nEND:VCALENDAR"@),
        StoredCalendar::Text(t) => parsed_calendar(t@),
    }
}

/// The calendar as a session's event is added to it: a new calendar named
/// `Game Sessions` when the file is missing, else the file's calendar, read
/// as an empty calendar when unreadable, and as the default calendar when it
/// does not parse.
pub fn session_calendar(stored: StoredCalendar) -> (r: icalendar::Calendar)
    ensures
        session_base(stored) matches Some(c) ==> r == c,
        match stored {
            StoredCalendar::Text(t) => parsed_calendar(t@) matches Some(c) ==> r == c,
            _ => true,
        },
        stored is Missing ==> r == named_new_calendar("Game Sessions"@),
        session_base(stored) is None ==> calendar_name(r) is None,
        stored_spaced(stored) ==> writable_calendar(r),
        calendar_components(r) == session_calendar_components(stored),
        stored is Missing ==> calendar_name(r) == Some("Game Sessions"@),
        stored matches StoredCalendar::Text(t) && !calendar_text_parses(t@) ==> calendar_name(r)
            is None,
{
    proof {
        lemma_empty_calendar_text_spaced();
        reveal_strlit("Game Sessions");
        lemma_ascii_spaced("Game Sessions"@);
    }
    match stored {
        StoredCalendar::Missing => new_named_calendar("Game Sessions"),
        StoredCalendar::Unreadable => match calendar_parse("BEGIN:VCALENDAR\nEND:VCALENDAR") {
            Some(c) => c,
            None => calendar_default(),
        },
        StoredCalendar::Text(t) => match calendar_parse(t.as_str()) {
            Some(c) => c,
            None => calendar_default(),
        },
    }
}

/// The calendar served to readers: the calendar read from the file, or a
/// new calendar named `Game Sessions` when the file is missing or does not
/// parse (an unreadable file is read as an empty text).
pub open spec fn served_calendar_of(stored: StoredCalendar) -> icalendar::Calendar {
    let blank = named_new_calendar("Game Sessions"@);
    match stored {
        StoredCalendar::Missing => blank,
        StoredCalendar::Unreadable => parsed_or(""@, blank),
        StoredCalendar::Text(t) => parsed_or(t@, blank),
    }
}

/// The calendar served to readers: the file's calendar, or a new calendar
/// named `Game Sessions` when the file is missing, unreadable or does not
/// parse.
pub fn served_calendar(stored: StoredCalendar) -> (r: icalendar::Calendar)
    ensures
        r == served_calendar_of(stored),
        stored_spaced(stored) ==> writable_calendar(r),
        calendar_components(r) == match stored {
            StoredCalendar::Missing => Seq::empty(),
            StoredCalendar::Unreadable => parsed_or_empty(""@),
            StoredCalendar::Text(t) => parsed_or_empty(t@),
        },
        match stored {
            StoredCalendar::Missing => true,
            StoredCalendar::Unreadable => !calendar_text_parses(""@),
            StoredCalendar::Text(t) => !calendar_text_parses(t@),
        } ==> calendar_name(r) == Some("Game Sessions"@),
{
    proof {
        lemma_empty_calendar_text_spaced();
        reveal_strlit("Game Sessions");
        lemma_ascii_spaced("Game Sessions"@);
    }
    let blank = new_named_calendar("Game Sessions");
    match stored {
        StoredCalendar::Missing => blank,
        StoredCalendar::Unreadable => match calendar_parse("") {
            Some(c) => c,
            None => blank,
        },
        StoredCalendar::Text(t) => match calendar_parse(t.as_str()) {
            Some(c) => c,
            None => blank,
        },
    }
}

/// The text of a writable calendar, as it is written to its file and
/// served: the calendar as icalendar writes it, framed by `BEGIN:VCALENDAR`
/// and `END:VCALENDAR` lines.
pub fn render_calendar(calendar: &icalendar::Calendar) -> (r: String)
    requires
        writable_calendar(*calendar),
    ensures
        vcalendar_text(r@),
        exists|stamps: Seq<Seq<char>>, ids: Seq<Seq<char>>, orders: Seq<Seq<int>>|
            r@ == calendar_text_with(*calendar, stamps, ids, orders),
{
    calendar_text(calendar)
}

/// A new calendar holding the components of `existing` followed by those of
/// `incoming`.
pub fn merge_calendars(existing: icalendar::Calendar, incoming: icalendar::Calendar) -> (r:
    icalendar::Calendar)
    ensures
        calendar_components(r) == calendar_components(existing) + calendar_components(incoming),
        calendar_name(r) is None,
        writable_calendar(existing) && writable_calendar(incoming) ==> writable_calendar(r),
{
    let ghost writable = writable_calendar(existing) && writable_calendar(incoming);
    let ghost existing_texts = calendar_property_texts(existing);
    let ghost incoming_texts = calendar_property_texts(incoming);
    let mut merged = calendar_new();
    let first = calendar_into_components(existing);
    let second = calendar_into_components(incoming);
    for c in iter: first
        invariant
            calendar_components(merged) == first@.take(iter.index() as int),
            calendar_name(merged) is None,
            writable ==> writable_calendar(merged),
            writable ==> writable_texts(existing_texts),
            forall|i: int|
                0 <= i < first@.len() ==> component_property_texts(#[trigger] first@[i]).subset_of(
                    existing_texts,
                ),
    {
        assert(first@.take(iter.index() + 1) =~= first@.take(iter.index() as int).push(c));
        assert(component_property_texts(first@[iter.index() as int]).subset_of(existing_texts));
        calendar_push(&mut merged, c);
    }
    assert(first@.take(first@.len() as int) =~= first@);
    for c in iter: second
        invariant
            calendar_components(merged) == first@ + second@.take(iter.index() as int),
            calendar_name(merged) is None,
            writable ==> writable_calendar(merged),
            writable ==> writable_texts(incoming_texts),
            forall|i: int|
                0 <= i < second@.len() ==> component_property_texts(#[trigger] second@[i]).subset_of(
                    incoming_texts,
                ),
    {
        assert(component_property_texts(second@[iter.index() as int]).subset_of(incoming_texts));
        assert(first@ + second@.take(iter.index() + 1) =~= (first@ + second@.take(
            iter.index() as int,
        )).push(c));
        calendar_push(&mut merged, c);
    }
    assert(second@.take(second@.len() as int) =~= second@);
    calendar_done(&mut merged)
}


/// Adds a copy of `event` at the end of the calendar.
pub fn add_event(calendar: &mut icalendar::Calendar, event: &icalendar::Event)
    ensures
        *final(calendar) == calendar_pushed(*old(calendar), component_of_event(*event)),
        calendar_name(*final(calendar)) == calendar_name(*old(calendar)),
        calendar_components(*final(calendar)).len() == calendar_components(*old(calendar)).len()
            + 1,
        calendar_components(*final(calendar)).drop_last() == calendar_components(*old(calendar)),
        calendar_components(*final(calendar)).last() == component_of_event(*event),
        writable_calendar(*old(calendar)) && writable_event(*event) ==> writable_calendar(
            *final(calendar),
        ),
{
    let component = event_component(event);
    calendar_push(calendar, component);
}

/// What recording a finished session gives: the message to print, the
/// event's contents, the event, the calendar holding it, where the
/// calendar's backup goes, and whether the calendar and event can be
/// written.
pub struct SessionOutcome {
    pub message: String,
    pub plan: SessionEvent,
    pub event: icalendar::Event,
    pub calendar: icalendar::Calendar,
    pub backup_path: String,
    pub writable: bool,
}

/// Records the session of `game_info` from `start` to `end`, ended at `now`,
/// during which the achievements listed in `achievements` were unlocked,
/// into the calendar stored at `config.calendar_path`.
pub fn create_game_session_event(
    config: &Config,
    stored: StoredCalendar,
    game_info: &str,
    achievements: &str,
    start: Timestamp,
    end: Timestamp,
    now: Timestamp,
) -> (r: SessionOutcome)
    ensures
        r.message@ == session_end_text(
            text_or_empty(
                zoned_time_text(
                    now.seconds(),
                    now.subsec_nanos(),
                    config.timezone@,
                    "%H:%M:%S"@,
                ),
            ),
            game_info@,
            achievements@,
            duration_text(seconds_between(start, end)),
        ),
        r.plan.summary@ == session_summary(game_info@),
        r.plan.description@ == session_description(achievements@),
        r.plan.uid@ == session_uid(game_info@, start.seconds() as int),
        r.plan.start == start,
        r.plan.end == end,
        r.plan.class == EventClass::Confidential,
        r.plan.status == EventStatus::Confirmed,
        r.event == session_ical_event_of(
            r.plan.summary@,
            r.plan.description@,
            r.plan.uid@,
            start.seconds(),
            start.subsec_nanos(),
            end.seconds(),
            end.subsec_nanos(),
            EventClass::Confidential,
            EventStatus::Confirmed,
        ),
        event_uid_of(r.event) == Some(r.plan.uid@),
        session_base(stored) matches Some(c) ==> r.calendar == calendar_pushed(
            c,
            component_of_event(r.event),
        ),
        match stored {
            StoredCalendar::Text(t) => parsed_calendar(t@) matches Some(c) ==> r.calendar
                == calendar_pushed(c, component_of_event(r.event)) && calendar_name(r.calendar)
                == calendar_name(c) && calendar_components(r.calendar) == calendar_components(
                c,
            ).push(component_of_event(r.event)),
            _ => true,
        },
        stored is Missing ==> r.calendar == calendar_pushed(
            named_new_calendar("Game Sessions"@),
            component_of_event(r.event),
        ) && calendar_components(r.calendar) == seq![component_of_event(r.event)],
        calendar_components(r.calendar).last() == component_of_event(r.event),
        session_base(stored) is None ==> calendar_name(r.calendar) is None,
        r.writable == (stored_spaced(stored) && foldable(r.plan.summary@) && foldable(
            r.plan.description@,
        ) && foldable(r.plan.uid@)),
        r.writable ==> writable_calendar(r.calendar) && writable_event(r.event),
        calendar_components(r.calendar).len() == session_calendar_components(stored).len() + 1,
        calendar_components(r.calendar).drop_last() == session_calendar_components(stored),
        stored is Missing ==> calendar_name(r.calendar) == Some("Game Sessions"@),
        r.backup_path@ == session_backup_target(
            config.calendar_path@,
            text_or_empty(utc_time_text(now.seconds(), now.subsec_nanos(), "%Y%m%d_%H%M%S"@)),
        ),
{
    let message = session_end_message(
        &now,
        config.timezone.as_str(),
        game_info,
        achievements,
        &start,
        &end,
    );
    let stored_writable = stored_calendar_writable(&stored);
    let mut calendar = session_calendar(stored);
    let plan = session_event(game_info, achievements, start, end);
    let writable = stored_writable && text_is_foldable(plan.summary.as_str())
        && text_is_foldable(plan.description.as_str()) && text_is_foldable(plan.uid.as_str());
    proof {
        use_type_invariant(&plan.start);
        use_type_invariant(&plan.end);
    }
    let event = session_ical_event(&plan);
    add_event(&mut calendar, &event);
    let stamp = utc_stamp(&now);
    let backup_path = match backup_path(config.calendar_path.as_str(), stamp.as_str()) {
        Ok(p) => p,
        Err(e) => {
            let mut m = String::from_str("Failed to set up a correct backup path: ");
            m.append(e.as_str());
            m
        },
    };
    SessionOutcome { message, plan, event, calendar, backup_path, writable }
}

/// The components that an upload is merged after are all those read from
/// a stored text that parses, in order, and none otherwise.
pub proof fn lemma_merge_base_keeps_stored(stored: StoredCalendar)
    ensures
        match stored {
            StoredCalendar::Text(t) => parsed_calendar(t@) matches Some(c)
                ==> merge_base_components(stored) == calendar_components(c),
            _ => true,
        },
        !(stored matches StoredCalendar::Text(t) && parsed_calendar(t@) is Some)
            ==> merge_base_components(stored).len() == 0,
{
}

/// The calendar that a session's event is added to is, where the stored
/// text parses, the calendar read from it, and where the file is missing, a
/// new calendar named `Game Sessions`.
pub proof fn lemma_session_base_is_stored(stored: StoredCalendar)
    ensures
        match stored {
            StoredCalendar::Text(t) => parsed_calendar(t@) matches Some(c) ==> session_base(stored)
                == Some(c),
            _ => true,
        },
        stored is Missing ==> session_base(stored) == Some(named_new_calendar("Game Sessions"@)),
{
}

/// Why an uploaded calendar is refused.
pub enum UploadRejection {
    /// The body is not UTF-8.
    InvalidUtf8,
    /// The body is not a calendar.
    InvalidCalendar,
    /// The calendar could not be written back: two characters outside ASCII
    /// stand with only line breaks, spaces or tabs between them.
    Unwritable,
}

impl UploadRejection {
    /// The text answered to the uploader.
    pub fn message(&self) -> (r: String)
        ensures
            self is InvalidUtf8 ==> r@ == "Invalid UTF-8"@,
            self is InvalidCalendar ==> r@ == "Invalid calendar format"@,
            self is Unwritable ==> r@ == "Calendar cannot be written back"@,
    {
        match self {
            UploadRejection::InvalidUtf8 => String::from_str("Invalid UTF-8"),
            UploadRejection::InvalidCalendar => String::from_str("Invalid calendar format"),
            UploadRejection::Unwritable => String::from_str("Calendar cannot be written back"),
        }
    }
}

/// The calendar uploaded in `body`, or why it is refused: the body must be
/// UTF-8, parse as a calendar and be spaced, so that the calendar can be
/// written back.
pub fn parse_upload(body: Vec<u8>) -> (r: Result<icalendar::Calendar, UploadRejection>)
    ensures
        !vstd::utf8::valid_utf8(body@) <==> r matches Err(UploadRejection::InvalidUtf8),
        vstd::utf8::valid_utf8(body@) && !calendar_text_parses(vstd::utf8::decode_utf8(body@))
            <==> r matches Err(UploadRejection::InvalidCalendar),
        vstd::utf8::valid_utf8(body@) && calendar_text_parses(vstd::utf8::decode_utf8(body@))
            && !spaced_text(vstd::utf8::decode_utf8(body@)) <==> r matches Err(
            UploadRejection::Unwritable,
        ),
        r is Ok <==> vstd::utf8::valid_utf8(body@) && calendar_text_parses(
            vstd::utf8::decode_utf8(body@),
        ) && spaced_text(vstd::utf8::decode_utf8(body@)),
        r matches Ok(c) ==> parsed_calendar(vstd::utf8::decode_utf8(body@)) == Some(c),
        r matches Ok(c) ==> writable_calendar(c),
{
    match utf8_decode(body) {
        Some(text) => match calendar_parse(text.as_str()) {
            Some(c) => if text_is_spaced(text.as_str()) {
                Ok(c)
            } else {
                Err(UploadRejection::Unwritable)
            },
            None => Err(UploadRejection::InvalidCalendar),
        },
        None => Err(UploadRejection::InvalidUtf8),
    }
}

/// The calendar that an upload leaves: a new calendar holding the components
/// of the stored calendar (none when it is missing, unreadable or does not
/// parse) followed by those of the uploaded one.
pub fn merge_upload(existing: StoredCalendar, incoming: icalendar::Calendar) -> (r:
    icalendar::Calendar)
    ensures
        calendar_components(r) == merge_base_components(existing) + calendar_components(incoming),
        match existing {
            StoredCalendar::Text(t) => parsed_calendar(t@) matches Some(c) ==> calendar_components(r)
                == calendar_components(c) + calendar_components(incoming),
            _ => true,
        },
        !(existing matches StoredCalendar::Text(t) && parsed_calendar(t@) is Some)
            ==> calendar_components(r) == calendar_components(incoming),
        calendar_components(r).len() == merge_base_components(existing).len()
            + calendar_components(incoming).len(),
        calendar_name(r) is None,
        stored_spaced(existing) && writable_calendar(incoming) ==> writable_calendar(r),
{
    let current = match existing {
        StoredCalendar::Text(t) => match calendar_parse(t.as_str()) {
            Some(c) => c,
            None => {
                let mut c = calendar_new();
                calendar_done(&mut c)
            },
        },
        _ => {
            let mut c = calendar_new();
            calendar_done(&mut c)
        },
    };
    merge_calendars(current, incoming)
}

/// Where an event with the id `uid` goes on the CalDAV server `provider`.
pub fn caldav_event_url(provider: &str, uid: &str) -> (r: String)
    ensures
        r@ == provider@ + "/"@ + uid@ + ".ics"@,
{
    let mut r = String::from_str(provider);
    r.append("/");
    r.append(uid);
    r.append(".ics");
    r
}

/// A request that publishes an event: where it goes and what it carries.
pub struct CaldavUpload {
    pub url: String,
    pub body: String,
}

/// The request that publishes a writable `event` on the CalDAV server
/// `provider`: to
/// `{provider}/{uid}.ics`, carrying the event's text; or `Event has no UID`
/// when the event has no id.
pub fn caldav_upload(event: &icalendar::Event, provider: &str) -> (r: Result<CaldavUpload, String>)
    requires
        writable_event(*event),
    ensures
        r is Ok <==> event_uid_of(*event) is Some,
        r matches Err(e) ==> e@ == "Event has no UID"@,
        r matches Ok(u) ==> event_uid_of(*event) matches Some(uid) && u.url@ == provider@ + "/"@
            + uid + ".ics"@,
        r matches Ok(u) ==> exists|stamps: Seq<Seq<char>>, ids: Seq<Seq<char>>, orders: Seq<
            Seq<int>,
        >| u.body@ == event_text_with(*event, stamps, ids, orders),
{
    match event_uid(event) {
        Some(uid) => {
            let body = event_text(event);
            let url = caldav_event_url(provider, uid.as_str());
            Ok(CaldavUpload { url, body })
        },
        None => Err(String::from_str("Event has no UID")),
    }
}

/// The error given when the CalDAV server refuses an event.
pub fn upload_failure_message(status: &str, answer: &str) -> (r: String)
    ensures
        r@ == "Failed to upload event: "@ + status@ + " "@ + answer@,
{
    let mut r = String::from_str("Failed to upload event: ");
    r.append(status);
    r.append(" ");
    r.append(answer);
    r
}

} // verus!
