//! `ISteamUserStats`: the achievements of a player in a game, and how many
//! players unlocked each achievement.
use vstd::prelude::*;

verus! {

/// The answer of `GetPlayerAchievements`.
#[derive(Default, Debug, Clone)]
pub struct PlayerAchievementsResponse {
    pub playerstats: PlayerStats,
}

/// A player's achievements in one game.
#[allow(non_snake_case)]
#[derive(Default, Debug, Clone)]
pub struct PlayerStats {
    pub steamID: String,
    pub gameName: String,
    pub achievements: Vec<Achievement>,
}

/// One achievement of a game, and whether and when the player unlocked it.
#[derive(Default, Debug, Clone)]
pub struct Achievement {
    pub apiname: String,
    /// `1` when unlocked.
    pub achieved: i32,
    /// When it was unlocked, in seconds since the Unix epoch.
    pub unlocktime: i64,
    pub name: Option<String>,
    pub description: Option<String>,
}

/// What an achievement holds, as plain values: its API name, whether it is
/// achieved, its unlock time, its display name and its description.
pub type AchievementView = (Seq<char>, i32, i64, Option<Seq<char>>, Option<Seq<char>>);

impl View for Achievement {
    type V = AchievementView;

    open spec fn view(&self) -> AchievementView {
        (
            self.apiname@,
            self.achieved,
            self.unlocktime,
            crate::text::opt_text(self.name),
            crate::text::opt_text(self.description),
        )
    }
}

fn copy_text(t: &Option<String>) -> (r: Option<String>)
    ensures
        crate::text::opt_text(r) == crate::text::opt_text(*t),
{
    match t {
        Some(s) => Some(s.clone()),
        None => None,
    }
}

impl Achievement {
    /// A copy of this achievement, field for field.
    pub fn duplicate(&self) -> (r: Achievement)
        ensures
            r@ == self@,
    {
        Achievement {
            apiname: self.apiname.clone(),
            achieved: self.achieved,
            unlocktime: self.unlocktime,
            name: copy_text(&self.name),
            description: copy_text(&self.description),
        }
    }
}

/// The answer of `GetGlobalAchievementPercentagesForApp`.
#[derive(Debug, Clone)]
pub struct GlobalAchievementPercentagesForApp {
    pub achievementpercentages: AchievementPercentages,
}

/// The share of players that unlocked each achievement of a game.
#[derive(Debug, Clone)]
pub struct AchievementPercentages {
    pub achievements: Vec<AchievementPercentage>,
}

/// The share of players, as the API writes it, that unlocked one
/// achievement.
#[derive(Debug, Clone)]
pub struct AchievementPercentage {
    pub name: String,
    pub percent: String,
}

} // verus!
