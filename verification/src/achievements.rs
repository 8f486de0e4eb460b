//! The achievements unlocked during a session, and the text that lists them
//! in the session's calendar event.
use vstd::prelude::*;
use crate::api::i_steam_user_stats::{
    Achievement,
    AchievementPercentage,
    AchievementPercentages,
    AchievementView,
    GlobalAchievementPercentagesForApp,
    PlayerAchievementsResponse,
    PlayerStats,
};
use crate::text::{
    lemma_newline_count_concat,
    lemma_newline_count_none,
    line_count_of,
    newline_count,
};

verus! {

/// The percentage given to an achievement whose share of players is unknown.
pub const UNKNOWN_PERCENTAGE: &'static str = "101.";

/// The `GetPlayerAchievements` request for a player in a game.
pub fn achievements_url(appid: &str, api_key: &str, steam_id: &str) -> (r: String)
    ensures
        r@ == "https://api.steampowered.com/ISteamUserStats/GetPlayerAchievements/v1/?appid="@
            + appid@ + "&key="@ + api_key@ + "&steamid="@ + steam_id@ + "&l=english"@,
{
    let mut r = String::from_str(
        "https://api.steampowered.com/ISteamUserStats/GetPlayerAchievements/v1/?appid=",
    );
    r.append(appid);
    r.append("&key=");
    r.append(api_key);
    r.append("&steamid=");
    r.append(steam_id);
    r.append("&l=english");
    r
}

/// The `GetGlobalAchievementPercentagesForApp` request for a game.
pub fn percentages_url(gameid: &str, api_key: &str) -> (r: String)
    ensures
        r@ == "https://api.steampowered.com/ISteamUserStats/GetGlobalAchievementPercentagesForApp/v2/?gameid="@
            + gameid@ + "&key="@ + api_key@ + "&l=english"@,
{
    let mut r = String::from_str(
        "https://api.steampowered.com/ISteamUserStats/GetGlobalAchievementPercentagesForApp/v2/?gameid=",
    );
    r.append(gameid);
    r.append("&key=");
    r.append(api_key);
    r.append("&l=english");
    r
}

/// The answer assumed when a player's achievements cannot be had: the
/// player and game, with no achievement.
pub fn empty_achievements_response(steam_id: &str, game_name: &str) -> (r:
    PlayerAchievementsResponse)
    ensures
        r.playerstats.steamID@ == steam_id@,
        r.playerstats.gameName@ == game_name@,
        r.playerstats.achievements@.len() == 0,
{
    PlayerAchievementsResponse {
        playerstats: PlayerStats {
            steamID: String::from_str(steam_id),
            gameName: String::from_str(game_name),
            achievements: Vec::new(),
        },
    }
}

/// The answer assumed when a game's achievement shares cannot be read: no
/// achievement.
pub fn empty_percentages() -> (r: GlobalAchievementPercentagesForApp)
    ensures
        r.achievementpercentages.achievements@.len() == 0,
{
    GlobalAchievementPercentagesForApp {
        achievementpercentages: AchievementPercentages { achievements: Vec::new() },
    }
}

/// The message given when a player's achievements cannot be fetched.
pub fn no_achievements_message(game_name: &str) -> (r: String)
    ensures
        r@ == "No achievements available for "@ + game_name@,
{
    let mut r = String::from_str("No achievements available for ");
    r.append(game_name);
    r
}

/// The message given when a game's achievement shares cannot be read.
pub fn no_stats_message(gameid: &str) -> (r: String)
    ensures
        r@ == "No achievement stats available for "@ + gameid@,
{
    let mut r = String::from_str("No achievement stats available for ");
    r.append(gameid);
    r
}

/// Whether an achievement was unlocked between `start` and `end`, both
/// included.
pub open spec fn unlocked_during(a: AchievementView, start: i64, end: i64) -> bool {
    a.1 == 1 && start <= a.2 && a.2 <= end
}

/// The achievements of `s` unlocked between `start` and `end`, in order.
pub open spec fn unlocked_between(s: Seq<AchievementView>, start: i64, end: i64) -> Seq<
    AchievementView,
>
    decreases s.len(),
{
    if s.len() == 0 {
        Seq::empty()
    } else {
        let rest = unlocked_between(s.drop_last(), start, end);
        if unlocked_during(s.last(), start, end) {
            rest.push(s.last())
        } else {
            rest
        }
    }
}

/// The session's achievements are exactly those achieved and unlocked
/// between `start` and `end`: every one kept was, and every one that was is
/// kept.
pub proof fn lemma_unlocked_between(s: Seq<AchievementView>, start: i64, end: i64)
    ensures
        unlocked_between(s, start, end).len() <= s.len(),
        forall|i: int|
            0 <= i < unlocked_between(s, start, end).len() ==> unlocked_during(
                #[trigger] unlocked_between(s, start, end)[i],
                start,
                end,
            ),
        forall|i: int|
            0 <= i < s.len() && unlocked_during(#[trigger] s[i], start, end)
                ==> unlocked_between(s, start, end).contains(s[i]),
    decreases s.len(),
{
    if s.len() > 0 {
        let init = s.drop_last();
        lemma_unlocked_between(init, start, end);
        let rest = unlocked_between(init, start, end);
        assert forall|i: int| 0 <= i < s.len() && unlocked_during(#[trigger] s[i], start, end)
            implies unlocked_between(s, start, end).contains(s[i]) by {
            if i < s.len() - 1 {
                assert(init[i] == s[i]);
                let j = choose|j: int| 0 <= j < rest.len() && rest[j] == init[i];
                assert(unlocked_between(s, start, end)[j] == s[i]);
            } else {
                assert(unlocked_between(s, start, end).last() == s[i]);
            }
        }
    }
}

/// The views of a sequence of achievements.
pub open spec fn achievement_views(s: Seq<Achievement>) -> Seq<AchievementView> {
    s.map_values(|a: Achievement| a@)
}

/// The achievements of `all` that were unlocked (`achieved == 1`) between
/// `start_time` and `end_time`, both included, in their order.
pub fn session_achievements(all: &Vec<Achievement>, start_time: i64, end_time: i64) -> (r: Vec<
    Achievement,
>)
    ensures
        achievement_views(r@) == unlocked_between(achievement_views(all@), start_time, end_time),
{
    let mut r: Vec<Achievement> = Vec::new();
    let mut i: usize = 0;
    while i < all.len()
        invariant
            i <= all.len(),
            achievement_views(r@) == unlocked_between(
                achievement_views(all@.take(i as int)),
                start_time,
                end_time,
            ),
        decreases all.len() - i,
    {
        let a = &all[i];
        assert(achievement_views(all@.take((i + 1) as int)).drop_last() =~= achievement_views(
            all@.take(i as int),
        ));
        if a.achieved == 1 && start_time <= a.unlocktime && a.unlocktime <= end_time {
            let copy = a.duplicate();
            r.push(copy);
            assert(achievement_views(r@) =~= achievement_views(r@.drop_last()).push(copy@));
        }
        i = i + 1;
    }
    assert(all@.take(all.len() as int) =~= all@);
    r
}

/// The outcome of looking up an achievement's share of players: the
/// percentage, and the warning to give when the achievement was not found.
pub struct PercentageLookup {
    pub percent: String,
    pub warning: Option<String>,
}

/// The index of the first entry of `s` named `name`, if any.
pub open spec fn first_named(s: Seq<AchievementPercentage>, name: Seq<char>) -> Option<int>
    decreases s.len(),
{
    if s.len() == 0 {
        None
    } else if s[0].name@ == name {
        Some(0)
    } else {
        match first_named(s.drop_first(), name) {
            Some(j) => Some(j + 1),
            None => None,
        }
    }
}

/// The entry found for a name is the first whose name equals it exactly:
/// every earlier entry has another name; and none is found exactly when no
/// entry has that name.
pub proof fn lemma_first_named_exact(s: Seq<AchievementPercentage>, name: Seq<char>)
    ensures
        first_named(s, name) matches Some(j) ==> 0 <= j < s.len() && s[j].name@ == name && (
        forall|k: int| 0 <= k < j ==> s[k].name@ != name),
        first_named(s, name) is None <==> (forall|k: int| 0 <= k < s.len() ==> s[k].name@ != name),
    decreases s.len(),
{
    if s.len() > 0 {
        let rest = s.drop_first();
        lemma_first_named_exact(rest, name);
        if s[0].name@ != name {
            assert forall|k: int| 1 <= k < s.len() implies s[k].name@ == rest[k - 1].name@ by {}
            if first_named(rest, name) is None {
                assert forall|k: int| 0 <= k < s.len() implies s[k].name@ != name by {
                    if k > 0 {
                        assert(s[k] == rest[k - 1]);
                    }
                }
            } else {
                let j = first_named(rest, name)->0;
                assert(s[j + 1] == rest[j]);
                assert forall|k: int| 0 <= k < j + 1 implies s[k].name@ != name by {
                    if k > 0 {
                        assert(s[k] == rest[k - 1]);
                    }
                }
            }
        }
    }
}

/// The share of players that unlocked `achievement_name` in the game
/// `gameid`: the percent of the first entry so named, or else the unknown
/// percentage with the warning `"{achievement_name} not found in {gameid}"`.
pub fn lookup_percentage(
    stats: &GlobalAchievementPercentagesForApp,
    gameid: &str,
    achievement_name: &str,
) -> (r: PercentageLookup)
    ensures
        match first_named(stats.achievementpercentages.achievements@, achievement_name@) {
            Some(j) => r.percent@ == stats.achievementpercentages.achievements@[j].percent@
                && r.warning is None,
            None => r.percent@ == UNKNOWN_PERCENTAGE@ && (r.warning matches Some(w) && w@
                == achievement_name@ + " not found in "@ + gameid@),
        },
        r.warning is None <==> exists|j: int|
            0 <= j < stats.achievementpercentages.achievements@.len()
                && #[trigger] stats.achievementpercentages.achievements@[j].name@
                == achievement_name@,
        r.warning is None ==> exists|j: int|
            0 <= j < stats.achievementpercentages.achievements@.len()
                && #[trigger] stats.achievementpercentages.achievements@[j].name@
                == achievement_name@ && r.percent@
                == stats.achievementpercentages.achievements@[j].percent@ && forall|k: int|
                0 <= k < j ==> stats.achievementpercentages.achievements@[k].name@
                    != achievement_name@,
        r.warning is Some ==> r.percent@ == UNKNOWN_PERCENTAGE@,
{
    proof {
        lemma_first_named_exact(stats.achievementpercentages.achievements@, achievement_name@);
    }
    let entries = &stats.achievementpercentages.achievements;
    let target = achievement_name.to_owned();
    let mut i: usize = 0;
    assert(entries@.skip(0) =~= entries@);
    while i < entries.len()
        invariant
            i <= entries.len(),
            entries == &stats.achievementpercentages.achievements,
            target@ == achievement_name@,
            first_named(entries@, achievement_name@) == (match first_named(
                entries@.skip(i as int),
                achievement_name@,
            ) {
                Some(j) => Some(j + i),
                None => None,
            }),
        decreases entries.len() - i,
    {
        assert(entries@.skip(i as int).drop_first() =~= entries@.skip((i + 1) as int));
        if entries[i].name == target {
            assert(entries@.skip(i as int)[0] == entries@[i as int]);
            assert(entries[i as int].name@ == achievement_name@);
            assert(first_named(entries@.skip(i as int), achievement_name@) == Some(0int));
            let percent = entries[i].percent.clone();
            assert(percent@ == entries@[i as int].percent@);
            assert(first_named(entries@, achievement_name@) == Some(i as int));
            proof {
                lemma_first_named_exact(entries@, achievement_name@);
            }
            assert(forall|k: int| 0 <= k < i ==> entries@[k].name@ != achievement_name@);
            assert(entries@[i as int].name@ == achievement_name@ && percent@
                == entries@[i as int].percent@);
            return PercentageLookup { percent, warning: None };
        }
        assert(entries@.skip(i as int)[0] == entries@[i as int]);
        i = i + 1;
    }
    let mut warning = String::from_str(achievement_name);
    warning.append(" not found in ");
    warning.append(gameid);
    PercentageLookup { percent: String::from_str(UNKNOWN_PERCENTAGE), warning: Some(warning) }
}


/// A session achievement with the share of players fetched for it (without
/// the `%` sign).
pub struct FetchedAchievement {
    pub achievement: Achievement,
    pub percentage: String,
}

impl View for FetchedAchievement {
    type V = (AchievementView, Seq<char>);

    open spec fn view(&self) -> (AchievementView, Seq<char>) {
        (self.achievement@, self.percentage@)
    }
}

/// The views of a sequence of fetched achievements.
pub open spec fn fetched_views(s: Seq<FetchedAchievement>) -> Seq<(AchievementView, Seq<char>)> {
    s.map_values(|f: FetchedAchievement| f@)
}

/// The index of the last entry of `s` whose achievement has the API name
/// `name`, or `-1`: percentages are kept by API name, the last fetched one
/// winning.
pub open spec fn last_with_name(s: Seq<(AchievementView, Seq<char>)>, name: Seq<char>) -> int
    decreases s.len(),
{
    if s.len() == 0 {
        -1
    } else if s.last().0.0 == name {
        s.len() - 1
    } else {
        last_with_name(s.drop_last(), name)
    }
}

/// The description an achievement is listed with: its description,
/// ` - no description` where it has none, and `no description` where it is
/// empty.
pub open spec fn description_text(a: AchievementView) -> Seq<char> {
    match a.4 {
        Some(d) => if d.len() == 0 {
            "no description"@
        } else {
            d
        },
        None => " - no description"@,
    }
}

/// The line listing an achievement with its share of players, in the form
/// `- {percentage}% {description}`.
pub open spec fn achievement_line(a: AchievementView, percentage: Seq<char>) -> Seq<char> {
    "- "@ + percentage + "% "@ + description_text(a)
}

/// The line of the `i`-th session achievement of `s`, with the share of
/// players last fetched under its API name.
pub open spec fn session_line(s: Seq<(AchievementView, Seq<char>)>, i: int) -> Seq<char> {
    achievement_line(s[i].0, s[last_with_name(s, s[i].0.0)].1)
}

/// The lines of all session achievements of `s`.
pub open spec fn session_lines(s: Seq<(AchievementView, Seq<char>)>) -> Seq<Seq<char>> {
    Seq::new(s.len(), |i: int| session_line(s, i))
}

/// The lines joined with a newline between two of them.
pub open spec fn join_lines(lines: Seq<Seq<char>>) -> Seq<char>
    decreases lines.len(),
{
    if lines.len() == 0 {
        Seq::empty()
    } else if lines.len() == 1 {
        lines[0]
    } else {
        join_lines(lines.drop_last()) + "\n"@ + lines.last()
    }
}

fn last_index_with_name(fetched: &Vec<FetchedAchievement>, i: usize) -> (r: usize)
    requires
        i < fetched.len(),
    ensures
        r == last_with_name(fetched_views(fetched@), fetched@[i as int].achievement.apiname@),
        i <= r < fetched.len(),
{
    let ghost fv = fetched_views(fetched@);
    let ghost name = fetched@[i as int].achievement.apiname@;
    let mut last: usize = i;
    let mut j: usize = 0;
    while j < fetched.len()
        invariant
            fv == fetched_views(fetched@),
            name == fetched@[i as int].achievement.apiname@,
            i < fetched.len(),
            j <= fetched.len(),
            j > i ==> last == last_with_name(fv.take(j as int), name) && i <= last < j,
        decreases fetched.len() - j,
    {
        assert(fv.take((j + 1) as int).drop_last() =~= fv.take(j as int));
        if fetched[j].achievement.apiname == fetched[i].achievement.apiname {
            last = j;
        }
        j = j + 1;
    }
    assert(fv.take(fetched.len() as int) =~= fv);
    last
}

/// The line listing an achievement with its share of players.
pub fn achievement_line_text(a: &Achievement, percentage: &str) -> (r: String)
    ensures
        r@ == achievement_line(a@, percentage@),
{
    let mut r = String::from_str("- ");
    r.append(percentage);
    r.append("% ");
    match &a.description {
        Some(d) => {
            if d.as_str().unicode_len() == 0 {
                r.append("no description");
            } else {
                r.append(d.as_str());
            }
        },
        None => r.append(" - no description"),
    }
    r
}

/// The text listing the session achievements, one line each, as the
/// session's calendar event describes them.
pub fn session_achievements_text(fetched: &Vec<FetchedAchievement>) -> (r: String)
    ensures
        r@ == join_lines(session_lines(fetched_views(fetched@))),
{
    let ghost fv = fetched_views(fetched@);
    let ghost lines = session_lines(fv);
    let mut r = String::new();
    let mut i: usize = 0;
    while i < fetched.len()
        invariant
            fv == fetched_views(fetched@),
            lines == session_lines(fv),
            i <= fetched.len(),
            r@ == join_lines(lines.take(i as int)),
        decreases fetched.len() - i,
    {
        let k = last_index_with_name(fetched, i);
        let line = achievement_line_text(&fetched[i].achievement, fetched[k].percentage.as_str());
        assert(line@ == lines[i as int]);
        assert(lines.take((i + 1) as int).drop_last() =~= lines.take(i as int));
        if i > 0 {
            r.append("\n");
        } else {
            assert(lines.take(1) =~= seq![lines[0]]);
        }
        r.append(line.as_str());
        i = i + 1;
    }
    assert(lines.take(fetched.len() as int) =~= lines);
    r
}

/// Lines none of which is empty or holds a newline, joined, make a text of
/// exactly that many lines.
pub proof fn lemma_join_line_count(lines: Seq<Seq<char>>)
    requires
        forall|i: int| 0 <= i < lines.len() ==> lines[i].len() > 0 && !(#[trigger] lines[i]).contains('\n'),
    ensures
        line_count_of(join_lines(lines)) == lines.len(),
        lines.len() > 0 ==> newline_count(join_lines(lines)) == lines.len() - 1,
        lines.len() > 0 ==> join_lines(lines).len() > 0 && join_lines(lines).last() == lines.last().last(),
    decreases lines.len(),
{
    if lines.len() == 1 {
        lemma_newline_count_none(lines[0]);
    } else if lines.len() > 1 {
        let init = lines.drop_last();
        assert forall|i: int| 0 <= i < init.len() implies init[i].len() > 0 && !(#[trigger] init[i]).contains('\n') by {
            assert(init[i] == lines[i]);
        }
        lemma_join_line_count(init);
        let last = lines.last();
        assert(last == lines[lines.len() - 1]);
        lemma_newline_count_none(last);
        lemma_newline_count_concat(join_lines(init) + "\n"@, last);
        lemma_newline_count_concat(join_lines(init), "\n"@);
        assert(newline_count("\n"@) == 1) by {
            reveal_strlit("\n");
            assert("\n"@.len() == 1);
            assert("\n"@.last() == '\n');
            assert("\n"@.drop_last() =~= Seq::<char>::empty());
            assert(newline_count("\n"@.drop_last()) == 0);
        }
    }
}

/// The texts that make up a session achievement's line hold no newline.
pub open spec fn single_line_parts(a: AchievementView, percentage: Seq<char>) -> bool {
    &&& !description_text(a).contains('\n')
    &&& !percentage.contains('\n')
}

/// The line of an achievement made of single-line parts is one line.
pub proof fn lemma_achievement_line_single(a: AchievementView, percentage: Seq<char>)
    requires
        single_line_parts(a, percentage),
    ensures
        achievement_line(a, percentage).len() > 0,
        !achievement_line(a, percentage).contains('\n'),
{
    let line = achievement_line(a, percentage);
    reveal_strlit("- ");
    reveal_strlit("% ");
    assert(line[0] == '-');
    assert forall|k: int| 0 <= k < line.len() implies line[k] != '\n' by {
        if line[k] == '\n' {
            lemma_newline_count_none(description_text(a));
            lemma_newline_count_none(percentage);
            lemma_newline_count_none("- "@);
            lemma_newline_count_none("% "@);
            lemma_newline_count_concat("- "@, percentage);
            lemma_newline_count_concat("- "@ + percentage, "% "@);
            lemma_newline_count_concat("- "@ + percentage + "% "@, description_text(a));
            lemma_newline_count_positive(line, k);
        }
    }
}

/// A text holding a newline has at least one.
pub proof fn lemma_newline_count_positive(s: Seq<char>, k: int)
    requires
        0 <= k < s.len(),
        s[k] == '\n',
    ensures
        newline_count(s) > 0,
    decreases s.len(),
{
    if k < s.len() - 1 {
        lemma_newline_count_positive(s.drop_last(), k);
    }
}

/// The end-of-session message counts the session's achievements: when no
/// percentage or description listed holds a newline, the text listing them
/// has exactly one line per session achievement.
pub proof fn lemma_listing_counts_achievements(fetched: Seq<(AchievementView, Seq<char>)>)
    requires
        forall|i: int|
            0 <= i < fetched.len() ==> single_line_parts(
                fetched[i].0,
                fetched[last_with_name(fetched, fetched[i].0.0)].1,
            ),
    ensures
        line_count_of(join_lines(session_lines(fetched))) == fetched.len(),
{
    let lines = session_lines(fetched);
    assert forall|i: int| 0 <= i < lines.len() implies lines[i].len() > 0 && !(#[trigger] lines[i]).contains('\n') by {
        lemma_achievement_line_single(
            fetched[i].0,
            fetched[last_with_name(fetched, fetched[i].0.0)].1,
        );
    }
    lemma_join_line_count(lines);
}

} // verus!
