//! What the tracker is configured with.
use vstd::prelude::*;

verus! {

/// The settings of the tracker.
#[derive(Clone, Debug)]
pub struct Config {
    pub api_key: String,
    pub steam_id: String,
    /// The time zone in which times are shown, by its IANA name (such as
    /// `Europe/Paris`).
    pub timezone: String,
    pub calendar_path: String,
    /// Seconds between two polls.
    pub delay: u64,
    pub caldav: Option<CalDAV>,
}

/// The credentials of a CalDAV server to publish events to.
#[derive(Clone, Debug)]
pub struct CalDAV {
    pub provider: String,
    pub username: String,
    pub password: String,
}

} // verus!
