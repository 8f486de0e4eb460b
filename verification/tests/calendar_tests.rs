use chrono::DateTime;
use icalendar::{Component, EventLike};
use steam_calendar::calendar::{
    backup_path, backup_path_from_parts, caldav_event_url, caldav_upload, create_game_session_event, merge_calendars,
    merge_upload, parse_upload, render_calendar, served_calendar, session_calendar,
    stored_calendar_writable, text_is_foldable, text_is_spaced, upload_backup_path,
    upload_failure_message, StoredCalendar, UploadRejection,
};
use steam_calendar::clock::Timestamp;
use steam_calendar::config::Config;

#[test]
fn backup_path_well_formed() {
    let calendar_short_path = "calendar.ics";
    let date = &DateTime::from_timestamp(61, 0)
        .unwrap()
        .format("%Y%m%d_%H%M%S")
        .to_string();

    let backup_short_path = backup_path(calendar_short_path, date);
    assert!(backup_short_path.is_ok());
    assert_eq!(backup_short_path.unwrap(), "19700101_000101.calendar.ics.bak");

    let calendar_long_path = "parent_dir/calendar.ics";

    let backup_long_path = backup_path(calendar_long_path, date);
    assert!(backup_long_path.is_ok());
    assert_eq!(
        backup_long_path.unwrap(),
        "parent_dir/19700101_000101.calendar.ics.bak"
    );
}

#[test]
fn backup_path_without_extension_fails() {
    assert_eq!(
        backup_path("calendar", "19700101_000101"),
        Err("Failed to create a correct backup_path: calendar_path: calendar".to_string())
    );
    assert!(backup_path("", "19700101_000101").is_err());
}

#[test]
fn backup_path_nested_directories() {
    assert_eq!(
        backup_path("/var/data/game_sessions.ics", "20250415_002909").unwrap(),
        "/var/data/20250415_002909.game_sessions.ics.bak"
    );
}

#[test]
fn backup_path_from_given_parts() {
    let some = |t: &str| Some(Some(t.to_string()));
    assert_eq!(
        backup_path_from_parts("x/c.ics", "S", some("x"), some("c"), some("ics")),
        Ok("x/S.c.ics.bak".to_string())
    );
    assert_eq!(
        backup_path_from_parts("c.ics", "S", some(""), some("c"), some("ics")),
        Ok("S.c.ics.bak".to_string())
    );
    assert_eq!(
        backup_path_from_parts("p", "S", Some(None), Some(None), Some(None)),
        Ok("./S.NO_FILE_STEM.UNKNOWN_EXTENSION.bak".to_string())
    );
    assert_eq!(
        backup_path_from_parts("p", "S", some("d"), None, some("e")),
        Err("Failed to create a correct backup_path: calendar_path: p".to_string())
    );
}

#[test]
fn upload_backup_path_appends_stamp() {
    assert_eq!(
        upload_backup_path("game_sessions.ics", "20250415_002909"),
        "game_sessions.ics.20250415_002909.bak"
    );
}

fn config(path: &str) -> Config {
    Config {
        api_key: "KEY".to_string(),
        steam_id: "76561197960435530".to_string(),
        timezone: "Europe/Paris".to_string(),
        calendar_path: path.to_string(),
        delay: 60,
        caldav: None,
    }
}

const ONE_EVENT: &str = "BEGIN:VCALENDAR\r\nVERSION:2.0\r\nBEGIN:VEVENT\r\nUID:a\r\nSUMMARY:A\r\nEND:VEVENT\r\nEND:VCALENDAR\r\n";
const TWO_EVENTS: &str = "BEGIN:VCALENDAR\r\nBEGIN:VEVENT\r\nUID:b\r\nEND:VEVENT\r\nBEGIN:VEVENT\r\nUID:c\r\nEND:VEVENT\r\nEND:VCALENDAR\r\n";

const MISMATCHED: &str = "BEGIN:VCALENDAR\nBEGIN:VEVENT\nEND:VCALENDAR";

#[test]
fn parse_upload_refuses_bad_bodies() {
    assert!(matches!(
        parse_upload(vec![0xff, 0xfe, 0x00]),
        Err(UploadRejection::InvalidUtf8)
    ));
    assert!(matches!(
        parse_upload(b"BEGIN:VEVENT\nEND:VCALENDAR".to_vec()),
        Err(UploadRejection::InvalidCalendar)
    ));
    assert_eq!(UploadRejection::InvalidUtf8.message(), "Invalid UTF-8");
    assert_eq!(UploadRejection::InvalidCalendar.message(), "Invalid calendar format");
    let ok = parse_upload(ONE_EVENT.as_bytes().to_vec());
    assert!(ok.is_ok());
    assert_eq!(ok.ok().unwrap().components.len(), 1);
}

#[test]
fn merge_keeps_existing_then_incoming() {
    let existing: icalendar::Calendar = TWO_EVENTS.parse().unwrap();
    let incoming: icalendar::Calendar = ONE_EVENT.parse().unwrap();
    let merged = merge_calendars(existing, incoming);
    assert_eq!(merged.components.len(), 3);
    assert_eq!(merged.get_name(), None);
    let uids: Vec<&str> = merged
        .components
        .iter()
        .map(|c| {
            c.as_event().unwrap().property_value("UID").unwrap()
        })
        .collect();
    assert_eq!(uids, vec!["b", "c", "a"]);
}

#[test]
fn merge_upload_with_stored_calendar() {
    let incoming: icalendar::Calendar = ONE_EVENT.parse().unwrap();
    let merged = merge_upload(StoredCalendar::Text(TWO_EVENTS.to_string()), incoming);
    assert_eq!(merged.components.len(), 3);
    let incoming: icalendar::Calendar = ONE_EVENT.parse().unwrap();
    let merged = merge_upload(StoredCalendar::Missing, incoming);
    assert_eq!(merged.components.len(), 1);
    let text = render_calendar(&merged);
    assert!(text.starts_with("BEGIN:VCALENDAR\r\n"));
    assert!(text.contains("UID:a"));
    assert!(text.ends_with("END:VCALENDAR\r\n"));
}

#[test]
fn served_calendar_falls_back_to_named_blank() {
    let blank = served_calendar(StoredCalendar::Missing);
    assert_eq!(blank.components.len(), 0);
    assert_eq!(blank.get_name(), Some("Game Sessions"));
    let broken = served_calendar(StoredCalendar::Text(MISMATCHED.to_string()));
    assert_eq!(broken.get_name(), Some("Game Sessions"));
    let lenient = served_calendar(StoredCalendar::Text("garbage".to_string()));
    assert_eq!(lenient.get_name(), None);
    assert_eq!(lenient.components.len(), 0);
    let unreadable = served_calendar(StoredCalendar::Unreadable);
    assert_eq!(unreadable.get_name(), None);
    let stored = served_calendar(StoredCalendar::Text(TWO_EVENTS.to_string()));
    assert_eq!(stored.components.len(), 2);
    assert_eq!(stored, TWO_EVENTS.parse::<icalendar::Calendar>().unwrap());
    assert_eq!(
        render_calendar(&blank),
        icalendar::Calendar::new().name("Game Sessions").done().to_string()
    );
}

#[test]
fn session_calendar_reads_or_creates() {
    let fresh = session_calendar(StoredCalendar::Missing);
    assert_eq!(fresh.get_name(), Some("Game Sessions"));
    assert_eq!(fresh.components.len(), 0);
    let stored = session_calendar(StoredCalendar::Text(TWO_EVENTS.to_string()));
    assert_eq!(stored.components.len(), 2);
    let broken = session_calendar(StoredCalendar::Text(MISMATCHED.to_string()));
    assert_eq!(broken.components.len(), 0);
    assert_eq!(broken.get_name(), None);
}

#[test]
fn create_game_session_event_records_the_session() {
    let start = Timestamp::new(1744676949, 0).unwrap();
    let end = Timestamp::new(1744678149, 500).unwrap();
    let now = Timestamp::new(1744678150, 0).unwrap();
    let outcome = create_game_session_event(
        &config("parent_dir/calendar.ics"),
        StoredCalendar::Text(TWO_EVENTS.to_string()),
        "Vampire Survivors",
        "- 1.5% Finish the base game",
        start,
        end,
        now,
    );
    assert_eq!(
        outcome.message,
        "02:49:10: Stopped playing at Vampire Survivors, 1 achievements unlocked (for 20m 0s)"
    );
    assert_eq!(outcome.plan.summary, "Vampire Survivors");
    assert_eq!(outcome.plan.uid, "steam-vampire-survivors-1744676949");
    assert_eq!(outcome.calendar.components.len(), 3);
    assert_eq!(outcome.backup_path, "parent_dir/20250415_004910.calendar.ics.bak");
    assert_eq!(outcome.event.get_uid(), Some("steam-vampire-survivors-1744676949"));
    assert_eq!(outcome.event.get_summary(), Some("Vampire Survivors"));
    assert_eq!(
        outcome.calendar.components.last(),
        Some(&icalendar::CalendarComponent::from(outcome.event.clone()))
    );
    let text = render_calendar(&outcome.calendar);
    assert!(text.contains("SUMMARY:Vampire Survivors\r\n"));
    assert!(text.contains("CLASS:CONFIDENTIAL"));
    assert!(text.contains("UID:steam-vampire-survivors-1744676949"));
    assert!(text.contains("DTSTART:20250415T002909Z"));
    assert!(text.contains("DTEND:20250415T004909Z"));
    assert!(text.contains("STATUS:CONFIRMED"));
}

#[test]
fn create_game_session_event_without_parent_or_extension() {
    let t = Timestamp::new(0, 0).unwrap();
    let outcome =
        create_game_session_event(&config("calendar"), StoredCalendar::Missing, "Game", "", t, t, t);
    assert_eq!(outcome.calendar.get_name(), Some("Game Sessions"));
    assert_eq!(
        outcome.backup_path,
        "Failed to set up a correct backup path: Failed to create a correct backup_path: calendar_path: calendar"
    );
    assert_eq!(outcome.calendar.components.len(), 1);
    assert_eq!(outcome.plan.description, "No achievements unlocked during this session");
    assert_eq!(outcome.message, "01:00:00: Stopped playing at Game (for 0s)");
}

#[test]
fn caldav_requests() {
    assert_eq!(
        caldav_event_url("https://cloud.example/dav/calendars/user", "steam-x-1"),
        "https://cloud.example/dav/calendars/user/steam-x-1.ics"
    );
    let start = Timestamp::new(10, 0).unwrap();
    let outcome = create_game_session_event(
        &config("calendar.ics"),
        StoredCalendar::Missing,
        "Half Life",
        "",
        start,
        start,
        start,
    );
    let upload = caldav_upload(&outcome.event, "https://p").ok().unwrap();
    assert_eq!(upload.url, "https://p/steam-half-life-10.ics");
    assert!(upload.body.starts_with("BEGIN:VEVENT\r\n"));
    assert!(upload.body.contains("UID:steam-half-life-10\r\n"));
    assert!(upload.body.ends_with("END:VEVENT\r\n"));
    let named = icalendar::Event::new().uid("steam-celeste-0").done();
    let upload = caldav_upload(&named, "https://cloud.example/dav/calendars/user").ok().unwrap();
    assert_eq!(upload.url, "https://cloud.example/dav/calendars/user/steam-celeste-0.ics");
    let no_uid = icalendar::Event::new();
    assert_eq!(caldav_upload(&no_uid, "https://p").err(), Some("Event has no UID".to_string()));
    assert_eq!(
        upload_failure_message("404 Not Found", "missing"),
        "Failed to upload event: 404 Not Found missing"
    );
}

#[test]
fn foldable_and_spaced_texts() {
    assert!(text_is_foldable(""));
    assert!(text_is_foldable("Pokémon Café"));
    assert!(text_is_foldable("É"));
    assert!(!text_is_foldable("ゼルダ"));
    assert!(!text_is_foldable("a\u{a0}é"));
    assert!(text_is_spaced("é-é"));
    assert!(!text_is_spaced("é é"));
    assert!(!text_is_spaced("é\r\n é"));
    assert!(!text_is_spaced("éé"));
    assert!(text_is_spaced("BEGIN:VCALENDAR\nEND:VCALENDAR"));
    assert!(stored_calendar_writable(&StoredCalendar::Missing));
    assert!(stored_calendar_writable(&StoredCalendar::Unreadable));
    assert!(!stored_calendar_writable(&StoredCalendar::Text("SUMMARY:ゼルダ".to_string())));
}

#[test]
fn upload_that_cannot_be_written_back_is_refused() {
    let body = "BEGIN:VCALENDAR\r\nBEGIN:VEVENT\r\nUID:z\r\nSUMMARY:ゼルダ\r\nEND:VEVENT\r\nEND:VCALENDAR\r\n";
    let refused = parse_upload(body.as_bytes().to_vec());
    assert!(matches!(refused, Err(UploadRejection::Unwritable)));
    assert_eq!(UploadRejection::Unwritable.message(), "Calendar cannot be written back");
}

#[test]
fn long_lines_with_accents_are_folded() {
    let long = "Pokémon à Paris, ".repeat(20);
    let body = format!(
        "BEGIN:VCALENDAR\r\nBEGIN:VEVENT\r\nUID:p\r\nDESCRIPTION:{long}\r\nEND:VEVENT\r\nEND:VCALENDAR\r\n"
    );
    let calendar = parse_upload(body.into_bytes()).ok().unwrap();
    let text = render_calendar(&calendar);
    assert!(text.contains("\r\n "));
    let again: icalendar::Calendar = text.parse().unwrap();
    let description = again.components[0].as_event().unwrap().get_description().unwrap().to_string();
    assert_eq!(description, long);
}

#[test]
fn sessions_with_unwritable_names_are_flagged() {
    let t = Timestamp::new(0, 0).unwrap();
    let fine =
        create_game_session_event(&config("calendar.ics"), StoredCalendar::Missing, "ÉLDEN Ring", "", t, t, t);
    assert!(fine.writable);
    let flagged =
        create_game_session_event(&config("calendar.ics"), StoredCalendar::Missing, "ゼルダ", "", t, t, t);
    assert!(!flagged.writable);
    let stored = create_game_session_event(
        &config("calendar.ics"),
        StoredCalendar::Text("BEGIN:VCALENDAR\r\nX-NOTE:éé\r\nEND:VCALENDAR\r\n".to_string()),
        "Celeste",
        "",
        t,
        t,
        t,
    );
    assert!(!stored.writable);
}
