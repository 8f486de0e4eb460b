use chrono::{DateTime, Utc};
use steam_calendar::clock::{
    clock_text, shifted_by, utc_stamp, whole_seconds_between, Timestamp,
    EARLIEST_SECOND, LATEST_SECOND,
};
use steam_calendar::session::{
    session_duration_text, session_end_line, session_end_message, session_event, uid_text, EventClass,
    EventStatus,
};
use steam_calendar::text::{char_vec, count_text, int_text, line_count, replace_char_text};

#[test]
fn int_text_renders_decimal() {
    assert_eq!(int_text(0), "0");
    assert_eq!(int_text(7), "7");
    assert_eq!(int_text(1744676949), "1744676949");
    assert_eq!(int_text(-42), "-42");
    assert_eq!(int_text(i64::MIN), i64::MIN.to_string());
    assert_eq!(int_text(i64::MAX), i64::MAX.to_string());
    assert_eq!(count_text(usize::MAX), usize::MAX.to_string());
}

#[test]
fn line_count_matches_std_lines() {
    for s in ["", "a", "a\n", "a\nb", "\n", "\n\n", "a\r\nb\r\n", "- x\n- y\n- z", "é\nü"] {
        assert_eq!(line_count(s), s.lines().count(), "{s:?}");
    }
}

#[test]
fn replace_char_text_replaces_every_occurrence() {
    assert_eq!(replace_char_text("vampire survivors  2", ' ', '-'), "vampire-survivors--2");
    assert_eq!(replace_char_text("", ' ', '-'), "");
    assert_eq!(char_vec("héllo"), vec!['h', 'é', 'l', 'l', 'o']);
}

#[test]
fn timestamp_range_is_chrono_range() {
    assert_eq!(DateTime::<Utc>::MIN_UTC.timestamp(), EARLIEST_SECOND);
    assert_eq!(DateTime::<Utc>::MAX_UTC.timestamp(), LATEST_SECOND);
    assert!(DateTime::from_timestamp(EARLIEST_SECOND, 0).is_some());
    assert!(DateTime::from_timestamp(LATEST_SECOND, 999_999_999).is_some());
    assert!(DateTime::from_timestamp(EARLIEST_SECOND - 1, 0).is_none());
    assert!(DateTime::from_timestamp(LATEST_SECOND + 1, 0).is_none());
    assert!(Timestamp::new(LATEST_SECOND, 999_999_999).is_some());
    assert!(Timestamp::new(LATEST_SECOND + 1, 0).is_none());
    assert!(Timestamp::new(EARLIEST_SECOND - 1, 0).is_none());
    assert!(Timestamp::new(0, 1_000_000_000).is_none());
    let t = Timestamp::new(12, 34).unwrap();
    assert_eq!((t.timestamp(), t.nanoseconds()), (12, 34));
}

#[test]
fn whole_seconds_round_toward_zero() {
    let a = Timestamp::new(10, 900_000_000).unwrap();
    let b = Timestamp::new(12, 100_000_000).unwrap();
    assert_eq!(whole_seconds_between(a, b), 1);
    assert_eq!(whole_seconds_between(b, a), -1);
    let chrono_a = DateTime::from_timestamp(10, 900_000_000).unwrap();
    let chrono_b = DateTime::from_timestamp(12, 100_000_000).unwrap();
    assert_eq!((chrono_b - chrono_a).num_seconds(), 1);
    assert_eq!((chrono_a - chrono_b).num_seconds(), -1);
}

#[test]
fn clock_texts() {
    let t = Timestamp::new(1744676949, 0).unwrap();
    assert_eq!(clock_text(&t, "Europe/Paris"), "02:29:09");
    assert_eq!(clock_text(&t, "UTC"), "00:29:09");
    assert_eq!(clock_text(&t, "Not/AZone"), "");
    assert_eq!(utc_stamp(&Timestamp::new(61, 0).unwrap()), "19700101_000101");
    let later = shifted_by(&t, 60);
    assert_eq!(later.timestamp(), 1744677009);
}

#[test]
fn session_durations() {
    let start = Timestamp::new(1000, 0).unwrap();
    let at = |s: i64| Timestamp::new(1000 + s, 0).unwrap();
    assert_eq!(session_duration_text(&start, &at(3725)), "1h 2m 5s");
    assert_eq!(session_duration_text(&start, &at(3600)), "1h 0m 0s");
    assert_eq!(session_duration_text(&start, &at(65)), "1m 5s");
    assert_eq!(session_duration_text(&start, &at(5)), "5s");
    assert_eq!(session_duration_text(&start, &at(0)), "0s");
    assert_eq!(session_duration_text(&at(65), &start), "-5s");
}

#[test]
fn session_event_scenario_from_readme() {
    let start = Timestamp::new(1744676949, 0).unwrap();
    let end = Timestamp::new(1744678149, 0).unwrap();
    let plan = session_event("Vampire Survivors", "- 1% Finish the base game", start, end);
    assert_eq!(plan.uid, "steam-vampire-survivors-1744676949");
    assert_eq!(plan.description, "Achievements:\n- 1% Finish the base game");
    assert_eq!(plan.summary, "Vampire Survivors");
    assert_eq!(plan.class, EventClass::Confidential);
    assert_eq!(plan.status, EventStatus::Confirmed);
    assert_eq!(plan.start, start);
    assert_eq!(plan.end, end);
}

#[test]
fn session_event_names_the_game_and_lowercases() {
    let t = Timestamp::new(-5, 0).unwrap();
    let plan = session_event("ÉLDEN Ring", "- a\n- b\n- c", t, t);
    assert_eq!(plan.summary, "ÉLDEN Ring");
    assert_eq!(plan.description, "Achievements:\n- a\n- b\n- c");
    assert_eq!(plan.uid, "steam-élden-ring--5");
    let plan = session_event("Celeste", "", t, t);
    assert_eq!(plan.summary, "Celeste");
    assert_eq!(plan.description, "No achievements unlocked during this session");
}

#[test]
fn uid_and_end_lines_from_given_texts() {
    assert_eq!(uid_text("half life 2", -3), "steam-half-life-2--3");
    assert_eq!(uid_text("HALF LIFE", 0), "steam-HALF-LIFE-0");
    assert_ne!(uid_text("g", 1), uid_text("g", 11));
    assert_ne!(uid_text("g", -1), uid_text("g", 1));
    assert_eq!(
        session_end_line("12:00:00", "Celeste", "- a", "5s"),
        "12:00:00: Stopped playing at Celeste, 1 achievements unlocked (for 5s)"
    );
    assert_eq!(session_end_line("", "Celeste", "", "1m 0s"), ": Stopped playing at Celeste (for 1m 0s)");
}

#[test]
fn session_end_messages() {
    let start = Timestamp::new(1744676949, 0).unwrap();
    let end = Timestamp::new(1744680549 + 61, 0).unwrap();
    assert_eq!(
        session_end_message(&end, "UTC", "Hades", "- a\n- b", &start, &end),
        "01:30:10: Stopped playing at Hades, 2 achievements unlocked (for 1h 1m 1s)"
    );
    assert_eq!(
        session_end_message(&end, "UTC", "Hades", "", &start, &end),
        "01:30:10: Stopped playing at Hades (for 1h 1m 1s)"
    );
}
