use steam_calendar::achievements::{
    achievement_line_text, achievements_url, empty_achievements_response, empty_percentages, lookup_percentage,
    no_achievements_message, no_stats_message, percentages_url, session_achievements,
    session_achievements_text, FetchedAchievement, UNKNOWN_PERCENTAGE,
};
use steam_calendar::api::i_player_service::{Player, PlayerSummaries, PlayerSummaryResponse};
use steam_calendar::api::i_steam_user_stats::{
    Achievement, AchievementPercentage, AchievementPercentages, GlobalAchievementPercentagesForApp,
};
use steam_calendar::clock::Timestamp;
use steam_calendar::tracker::{
    next_update_message, next_update_text, player_summaries_url, start_message, PollOutcome, TrackerAction, TrackerState,
};

fn achievement(apiname: &str, achieved: i32, unlocktime: i64) -> Achievement {
    Achievement {
        apiname: apiname.to_string(),
        achieved,
        unlocktime,
        name: None,
        description: None,
    }
}

#[test]
fn urls() {
    assert_eq!(
        achievements_url("1794680", "KEY", "765"),
        "https://api.steampowered.com/ISteamUserStats/GetPlayerAchievements/v1/?appid=1794680&key=KEY&steamid=765&l=english"
    );
    assert_eq!(
        percentages_url("1794680", "KEY"),
        "https://api.steampowered.com/ISteamUserStats/GetGlobalAchievementPercentagesForApp/v2/?gameid=1794680&key=KEY&l=english"
    );
    assert_eq!(
        player_summaries_url("KEY", "765"),
        "https://api.steampowered.com/ISteamUser/GetPlayerSummaries/v0002/?key=KEY&steamids=765"
    );
    assert_eq!(no_achievements_message("Hades"), "No achievements available for Hades");
    assert_eq!(no_stats_message("42"), "No achievement stats available for 42");
}

#[test]
fn defaults_are_empty() {
    let r = empty_achievements_response("765", "Hades");
    assert_eq!(r.playerstats.steamID, "765");
    assert_eq!(r.playerstats.gameName, "Hades");
    assert!(r.playerstats.achievements.is_empty());
    assert!(empty_percentages().achievementpercentages.achievements.is_empty());
}

#[test]
fn session_achievements_keeps_unlocked_in_window() {
    let all = vec![
        achievement("early", 1, 99),
        achievement("start", 1, 100),
        achievement("locked", 0, 150),
        achievement("middle", 1, 150),
        achievement("end", 1, 200),
        achievement("late", 1, 201),
        achievement("odd", 2, 150),
    ];
    let kept: Vec<String> = session_achievements(&all, 100, 200)
        .into_iter()
        .map(|a| a.apiname)
        .collect();
    assert_eq!(kept, vec!["start", "middle", "end"]);
    assert!(session_achievements(&all, 300, 200).is_empty());
}

fn percentages(entries: &[(&str, &str)]) -> GlobalAchievementPercentagesForApp {
    GlobalAchievementPercentagesForApp {
        achievementpercentages: AchievementPercentages {
            achievements: entries
                .iter()
                .map(|(n, p)| AchievementPercentage { name: n.to_string(), percent: p.to_string() })
                .collect(),
        },
    }
}

#[test]
fn lookup_percentage_first_match_or_unknown() {
    let stats = percentages(&[("A", "12.5"), ("B", "3.1"), ("A", "99")]);
    let found = lookup_percentage(&stats, "42", "A");
    assert_eq!(found.percent, "12.5");
    assert!(found.warning.is_none());
    let missing = lookup_percentage(&stats, "42", "C");
    assert_eq!(missing.percent, UNKNOWN_PERCENTAGE);
    assert_eq!(missing.percent, "101.");
    assert_eq!(missing.warning, Some("C not found in 42".to_string()));
    let none = lookup_percentage(&empty_percentages(), "7", "A");
    assert_eq!(none.percent, "101.");
}

#[test]
fn session_achievements_text_lists_each() {
    let fetched = vec![
        FetchedAchievement {
            achievement: Achievement {
                apiname: "FINISH".to_string(),
                achieved: 1,
                unlocktime: 1744676949,
                name: Some("Finish".to_string()),
                description: Some("Finish the base game".to_string()),
            },
            percentage: "1.5".to_string(),
        },
        FetchedAchievement {
            achievement: Achievement {
                apiname: "SECRET".to_string(),
                achieved: 1,
                unlocktime: 0,
                name: None,
                description: None,
            },
            percentage: "20".to_string(),
        },
        FetchedAchievement {
            achievement: Achievement {
                apiname: "EMPTY".to_string(),
                achieved: 1,
                unlocktime: 0,
                name: Some("Empty".to_string()),
                description: Some(String::new()),
            },
            percentage: "101.".to_string(),
        },
    ];
    assert_eq!(
        session_achievements_text(&fetched),
        "- 1.5% Finish the base game\n- 20%  - no description\n- 101.% no description"
    );
    assert_eq!(session_achievements_text(&Vec::new()), "");
}

#[test]
fn session_achievements_text_uses_last_percentage_of_a_name() {
    let fetched = vec![
        FetchedAchievement { achievement: achievement("A", 1, 0), percentage: "1".to_string() },
        FetchedAchievement { achievement: achievement("A", 1, 0), percentage: "2".to_string() },
    ];
    assert_eq!(
        session_achievements_text(&fetched),
        "- 2%  - no description\n- 2%  - no description"
    );
}

fn player(game: Option<&str>, id: Option<&str>) -> Player {
    Player {
        steamid: "765".to_string(),
        personaname: "Robin".to_string(),
        profileurl: String::new(),
        avatar: String::new(),
        avatarmedium: String::new(),
        avatarfull: String::new(),
        personastate: 1,
        communityvisibilitystate: 3,
        profilestate: None,
        lastlogoff: None,
        commentpermission: None,
        realname: None,
        primaryclanid: None,
        timecreated: None,
        gameid: id.map(String::from),
        gameserverip: None,
        gameextrainfo: game.map(String::from),
        loccountrycode: None,
        locstatecode: None,
        loccityid: None,
    }
}

fn poll(game: Option<&str>, id: Option<&str>) -> PollOutcome {
    PollOutcome::Summary(PlayerSummaryResponse {
        response: PlayerSummaries { players: vec![player(game, id)] },
    })
}

fn t(s: i64) -> Timestamp {
    Timestamp::new(s, 0).unwrap()
}

#[test]
fn tracker_records_a_session() {
    let mut state = TrackerState::new(t(0));
    let actions = state.step(poll(None, None), t(10), "UTC");
    assert!(matches!(actions.as_slice(), [TrackerAction::Wait]));
    assert!(!state.skip_waiting);

    let actions = state.step(poll(Some("Hades"), Some("1145360")), t(3600), "UTC");
    assert_eq!(actions.len(), 2);
    assert!(matches!(&actions[0], TrackerAction::Announce(m) if m == "01:00:00: Started playing at Hades"));
    assert!(matches!(actions[1], TrackerAction::Wait));
    assert_eq!(state.currently_playing.as_deref(), Some("Hades"));
    assert_eq!(state.game_id, "1145360");

    let actions = state.step(poll(Some("Hades"), Some("1145360")), t(3660), "UTC");
    assert!(matches!(actions.as_slice(), [TrackerAction::Wait]));
    assert!(!state.skip_waiting);

    let actions = state.step(poll(None, None), t(7200), "UTC");
    assert_eq!(actions.len(), 2);
    match &actions[0] {
        TrackerAction::RecordSession(r) => {
            assert_eq!(r.game_info, "Hades");
            assert_eq!(r.game_id, "1145360");
            assert_eq!(r.start, t(3600));
            assert_eq!(r.end, t(7200));
        }
        _ => panic!("expected a recorded session"),
    }
    assert!(matches!(actions[1], TrackerAction::Wait));
    assert!(state.currently_playing.is_none());
    assert!(state.skip_waiting);
}

#[test]
fn tracker_switches_games_without_waiting() {
    let mut state = TrackerState::new(t(0));
    state.step(poll(Some("Hades"), None), t(100), "UTC");
    assert_eq!(state.game_id, "No game ID found");
    let actions = state.step(poll(Some("Celeste"), Some("504230")), t(200), "UTC");
    assert_eq!(actions.len(), 1);
    assert!(matches!(&actions[0], TrackerAction::RecordSession(r) if r.game_info == "Hades" && r.start == t(100) && r.end == t(200)));
    assert!(state.currently_playing.is_none());
    let actions = state.step(poll(Some("Celeste"), Some("504230")), t(201), "UTC");
    assert!(matches!(&actions[0], TrackerAction::Announce(m) if m == "00:03:21: Started playing at Celeste"));
    assert_eq!(state.start_time, t(201));
}

#[test]
fn tracker_failures() {
    let mut state = TrackerState::new(t(0));
    let actions = state.step(PollOutcome::RequestFailed("timeout".to_string()), t(1), "UTC");
    assert_eq!(actions.len(), 2);
    assert!(matches!(&actions[0], TrackerAction::ReportError(m) if m == "API request failed: timeout"));
    assert!(matches!(actions[1], TrackerAction::Wait));
    let actions = state.step(PollOutcome::Unreadable, t(2), "UTC");
    assert!(actions.is_empty());
    let empty = PollOutcome::Summary(PlayerSummaryResponse {
        response: PlayerSummaries { players: vec![] },
    });
    let actions = state.step(empty, t(3), "UTC");
    assert_eq!(actions.len(), 1);
    assert!(matches!(&actions[0], TrackerAction::ReportError(m) if m == "API request failed: No players returned."));
}

#[test]
fn lines_from_given_texts() {
    let a = Achievement {
        apiname: "A".to_string(),
        achieved: 1,
        unlocktime: 0,
        name: Some("Alpha".to_string()),
        description: Some("First".to_string()),
    };
    assert_eq!(achievement_line_text(&a, "3.5"), "- 3.5% First");
    assert_eq!(achievement_line_text(&achievement("B", 1, 0), "1"), "- 1%  - no description");
    assert_eq!(start_message("10:00:00", "Hades"), "10:00:00: Started playing at Hades");
    assert_eq!(next_update_text("10:01:00"), "Next update: 10:01:00");
}

#[test]
fn next_update_messages() {
    assert_eq!(
        next_update_message(&t(1744676949), 60, "Europe/Paris"),
        "Next update: 02:30:09"
    );
}

#[test]
fn tracker_records_each_session_once_over_many_polls() {
    let mut state = TrackerState::new(t(0));
    let polls = vec![
        (poll(Some("Hades"), Some("1")), 10),
        (poll(Some("Hades"), Some("1")), 20),
        (PollOutcome::RequestFailed("timeout".to_string()), 25),
        (PollOutcome::Unreadable, 27),
        (poll(Some("Celeste"), Some("2")), 30),
        (poll(Some("Celeste"), Some("2")), 40),
        (poll(Some("Celeste"), None), 50),
        (poll(None, None), 60),
        (poll(None, None), 70),
    ];
    let mut records = Vec::new();
    let mut starts = Vec::new();
    for (outcome, time) in polls {
        for action in state.step(outcome, t(time), "UTC") {
            match action {
                TrackerAction::RecordSession(r) => {
                    records.push((r.game_id, r.game_info, r.start.timestamp(), r.end.timestamp()))
                }
                TrackerAction::Announce(m) => starts.push(m),
                _ => {}
            }
        }
    }
    assert_eq!(
        records,
        vec![
            ("1".to_string(), "Hades".to_string(), 10, 30),
            ("2".to_string(), "Celeste".to_string(), 40, 60),
        ]
    );
    assert_eq!(
        starts,
        vec![
            "00:00:10: Started playing at Hades".to_string(),
            "00:00:40: Started playing at Celeste".to_string(),
        ]
    );
    assert!(state.currently_playing.is_none());
}
