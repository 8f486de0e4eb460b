//! `ISteamUser/GetPlayerSummaries`: who is playing what.
use vstd::prelude::*;

verus! {

/// The answer of `GetPlayerSummaries`.
#[derive(Debug, Clone)]
pub struct PlayerSummaryResponse {
    pub response: PlayerSummaries,
}

/// The players that `GetPlayerSummaries` describes.
#[derive(Debug, Clone)]
pub struct PlayerSummaries {
    pub players: Vec<Player>,
}

/// One player's public summary; the private fields are `None` for a
/// private profile.
#[derive(Debug, Clone)]
pub struct Player {
    pub steamid: String,
    pub personaname: String,
    pub profileurl: String,
    pub avatar: String,
    pub avatarmedium: String,
    pub avatarfull: String,
    pub personastate: i32,
    pub communityvisibilitystate: i32,
    pub profilestate: Option<i32>,
    pub lastlogoff: Option<i64>,
    pub commentpermission: Option<i32>,
    pub realname: Option<String>,
    pub primaryclanid: Option<String>,
    pub timecreated: Option<i64>,
    /// The id of the game being played.
    pub gameid: Option<String>,
    pub gameserverip: Option<String>,
    /// The name of the game being played: what session tracking reads.
    pub gameextrainfo: Option<String>,
    pub loccountrycode: Option<String>,
    pub locstatecode: Option<String>,
    pub loccityid: Option<i32>,
}

} // verus!
