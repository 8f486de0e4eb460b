//! The decisions of the session tracker: from what each poll of the player's
//! summary shows, whether a session starts or ends, what is announced, and
//! whether to wait before the next poll.
use vstd::prelude::*;
use crate::api::i_player_service::{Player, PlayerSummaryResponse};
use crate::clock::{
    clock_text,
    shifted_by,
    zoned_time_text,
    Timestamp,
    EARLIEST_SECOND,
    LATEST_SECOND,
    MAX_DELTA_SECONDS,
};
use crate::text::{opt_text, text_or_empty};

verus! {

/// The `GetPlayerSummaries` request for one player.
pub fn player_summaries_url(api_key: &str, steam_id: &str) -> (r: String)
    ensures
        r@ == "https://api.steampowered.com/ISteamUser/GetPlayerSummaries/v0002/?key="@ + api_key@
            + "&steamids="@ + steam_id@,
{
    let mut r = String::from_str(
        "https://api.steampowered.com/ISteamUser/GetPlayerSummaries/v0002/?key=",
    );
    r.append(api_key);
    r.append("&steamids=");
    r.append(steam_id);
    r
}

/// What the tracker remembers between two polls.
pub struct TrackerState {
    /// The game of the session under way, if any.
    pub currently_playing: Option<String>,
    /// The id of the game of the last session that started.
    pub game_id: String,
    /// When the last session started.
    pub start_time: Timestamp,
    /// Whether the wait after a poll that ends no session is skipped.
    pub skip_waiting: bool,
}

/// What the tracker remembers, as plain values.
pub struct TrackerView {
    pub playing: Option<Seq<char>>,
    pub game_id: Seq<char>,
    pub start: Timestamp,
    pub skip_waiting: bool,
}

impl View for TrackerState {
    type V = TrackerView;

    open spec fn view(&self) -> TrackerView {
        TrackerView {
            playing: opt_text(self.currently_playing),
            game_id: self.game_id@,
            start: self.start_time,
            skip_waiting: self.skip_waiting,
        }
    }
}

/// What one poll of the player's summary gave.
pub enum PollOutcome {
    /// The request failed; the error's text.
    RequestFailed(String),
    /// The answer could not be read as a player summary.
    Unreadable,
    /// The player summary.
    Summary(PlayerSummaryResponse),
}

/// A poll's outcome as plain values: for a summary, the game name and game
/// id of its first player, or `None` where it lists no player.
pub enum PollView {
    RequestFailed(Seq<char>),
    Unreadable,
    Summary(Option<(Option<Seq<char>>, Option<Seq<char>>)>),
}

/// The game name and game id of a player.
pub open spec fn player_game(p: Player) -> (Option<Seq<char>>, Option<Seq<char>>) {
    (opt_text(p.gameextrainfo), opt_text(p.gameid))
}

impl View for PollOutcome {
    type V = PollView;

    open spec fn view(&self) -> PollView {
        match self {
            PollOutcome::RequestFailed(e) => PollView::RequestFailed(e@),
            PollOutcome::Unreadable => PollView::Unreadable,
            PollOutcome::Summary(s) => PollView::Summary(
                if s.response.players@.len() == 0 {
                    None
                } else {
                    Some(player_game(s.response.players@[0]))
                },
            ),
        }
    }
}

/// A finished session, to be recorded in the calendar.
pub struct SessionRecord {
    pub game_id: String,
    pub game_info: String,
    pub start: Timestamp,
    pub end: Timestamp,
}

/// What the tracker asks to be done, in order.
pub enum TrackerAction {
    /// Print a message.
    Announce(String),
    /// Print an error message.
    ReportError(String),
    /// Record a finished session.
    RecordSession(SessionRecord),
    /// Wait for the configured delay before polling again.
    Wait,
}

/// A tracker action as plain values.
pub enum ActionView {
    Announce(Seq<char>),
    ReportError(Seq<char>),
    RecordSession(Seq<char>, Seq<char>, Timestamp, Timestamp),
    Wait,
}

impl View for TrackerAction {
    type V = ActionView;

    open spec fn view(&self) -> ActionView {
        match self {
            TrackerAction::Announce(m) => ActionView::Announce(m@),
            TrackerAction::ReportError(m) => ActionView::ReportError(m@),
            TrackerAction::RecordSession(r) => ActionView::RecordSession(
                r.game_id@,
                r.game_info@,
                r.start,
                r.end,
            ),
            TrackerAction::Wait => ActionView::Wait,
        }
    }
}

/// The views of a sequence of actions.
pub open spec fn action_views(s: Seq<TrackerAction>) -> Seq<ActionView> {
    s.map_values(|a: TrackerAction| a@)
}

/// The game id kept for a session whose player summary gives none.
pub open spec fn missing_game_id() -> Seq<char> {
    "No game ID found"@
}

/// The message announcing that `game` started being played at `clock`.
pub open spec fn start_text(clock: Seq<char>, game: Seq<char>) -> Seq<char> {
    clock + ": Started playing at "@ + game
}

/// The wall-clock text of `time` in `timezone`.
pub open spec fn clock_of(time: Timestamp, timezone: Seq<char>) -> Seq<char> {
    text_or_empty(zoned_time_text(time.seconds(), time.subsec_nanos(), timezone, "%H:%M:%S"@))
}

/// After a poll that ends no session by itself: wait once, unless waiting is
/// skipped, and skip it from then on.
pub open spec fn settle(s: TrackerView, actions: Seq<ActionView>) -> (TrackerView, Seq<ActionView>) {
    if !s.skip_waiting {
        (TrackerView { skip_waiting: true, ..s }, actions.push(ActionView::Wait))
    } else {
        (s, actions)
    }
}

/// The tracker's next state and actions after a poll with `outcome` made at
/// `now`, messages shown in `timezone`.
pub open spec fn transition(s: TrackerView, outcome: PollView, now: Timestamp, timezone: Seq<char>) -> (
    TrackerView,
    Seq<ActionView>,
) {
    match outcome {
        PollView::RequestFailed(e) => settle(
            s,
            seq![ActionView::ReportError("API request failed: "@ + e)],
        ),
        PollView::Unreadable => settle(s, Seq::empty()),
        PollView::Summary(None) => (
            s,
            seq![ActionView::ReportError("API request failed: No players returned."@)],
        ),
        PollView::Summary(Some((game, id))) => {
            let starts = s.playing is None && game is Some;
            let switched = s.playing is Some && game is Some && s.playing->0 != game->0;
            let ends = s.playing is Some && (game is None || switched);
            let skip = if s.playing is Some && game is Some {
                switched
            } else {
                s.skip_waiting
            };
            let s1 = if starts {
                TrackerView {
                    playing: game,
                    game_id: match id {
                        Some(i) => i,
                        None => missing_game_id(),
                    },
                    start: now,
                    skip_waiting: skip,
                }
            } else {
                TrackerView { skip_waiting: skip, ..s }
            };
            let announced: Seq<ActionView> = if starts {
                seq![ActionView::Announce(start_text(clock_of(now, timezone), game->0))]
            } else {
                Seq::empty()
            };
            if !ends {
                (s1, announced.push(ActionView::Wait))
            } else {
                settle(
                    TrackerView { playing: None, ..s1 },
                    announced.push(
                        ActionView::RecordSession(s1.game_id, s1.playing->0, s1.start, now),
                    ),
                )
            }
        },
    }
}

/// The message announcing that `game` started being played at the
/// wall-clock time `clock`.
pub fn start_message(clock: &str, game: &str) -> (r: String)
    ensures
        r@ == start_text(clock@, game@),
{
    let mut r = String::from_str(clock);
    r.append(": Started playing at ");
    r.append(game);
    r
}

fn same_text(a: &String, b: &String) -> (r: bool)
    ensures
        r == (a@ == b@),
{
    *a == *b
}

fn copy_text(t: &Option<String>) -> (r: Option<String>)
    ensures
        opt_text(r) == opt_text(*t),
{
    match t {
        Some(s) => Some(s.clone()),
        None => None,
    }
}

impl TrackerState {
    /// The tracker before any poll: no session under way, waiting not
    /// skipped.
    pub fn new(now: Timestamp) -> (r: TrackerState)
        ensures
            r@ == (TrackerView {
                playing: None,
                game_id: Seq::empty(),
                start: now,
                skip_waiting: false,
            }),
    {
        TrackerState {
            currently_playing: None,
            game_id: String::new(),
            start_time: now,
            skip_waiting: false,
        }
    }

    fn settle(&mut self, actions: &mut Vec<TrackerAction>)
        ensures
            (final(self)@, action_views(final(actions)@)) == settle(
                old(self)@,
                action_views(old(actions)@),
            ),
    {
        if !self.skip_waiting {
            self.skip_waiting = true;
            actions.push(TrackerAction::Wait);
            assert(action_views(actions@) =~= action_views(old(actions)@).push(ActionView::Wait));
        }
    }

    /// Takes in the outcome of a poll made at `now`, and gives the actions to
    /// perform, in order; messages show times in `timezone`.
    pub fn step(&mut self, outcome: PollOutcome, now: Timestamp, timezone: &str) -> (actions: Vec<
        TrackerAction,
    >)
        ensures
            (final(self)@, action_views(actions@)) == transition(
                old(self)@,
                outcome@,
                now,
                timezone@,
            ),
    {
        let mut actions: Vec<TrackerAction> = Vec::new();
        match outcome {
            PollOutcome::RequestFailed(e) => {
                let mut message = String::from_str("API request failed: ");
                message.append(e.as_str());
                actions.push(TrackerAction::ReportError(message));
                assert(action_views(actions@) =~= seq![
                    ActionView::ReportError("API request failed: "@ + e@),
                ]);
                self.settle(&mut actions);
            },
            PollOutcome::Unreadable => {
                assert(action_views(actions@) =~= Seq::<ActionView>::empty());
                self.settle(&mut actions);
            },
            PollOutcome::Summary(summary) => {
                let players = &summary.response.players;
                if players.len() == 0 {
                    actions.push(
                        TrackerAction::ReportError(
                            String::from_str("API request failed: No players returned."),
                        ),
                    );
                    assert(action_views(actions@) =~= seq![
                        ActionView::ReportError("API request failed: No players returned."@),
                    ]);
                    return actions;
                }
                let player = &players[0];
                let game = copy_text(&player.gameextrainfo);
                let ghost before = self@;
                let starts = self.currently_playing.is_none() && game.is_some();
                let mut switched = false;
                match (&self.currently_playing, &game) {
                    (Some(past), Some(current)) => {
                        switched = !same_text(past, current);
                        self.skip_waiting = switched;
                    },
                    _ => {},
                }
                let ends = self.currently_playing.is_some() && (game.is_none() || switched);
                if starts {
                    self.start_time = now;
                    self.currently_playing = copy_text(&game);
                    self.game_id = match &player.gameid {
                        Some(i) => i.clone(),
                        None => String::from_str("No game ID found"),
                    };
                    let clock = clock_text(&now, timezone);
                    let message = match &game {
                        Some(g) => start_message(clock.as_str(), g.as_str()),
                        None => String::new(),
                    };
                    actions.push(TrackerAction::Announce(message));
                }
                let ghost announced = action_views(actions@);
                if !ends {
                    actions.push(TrackerAction::Wait);
                    assert(action_views(actions@) =~= announced.push(ActionView::Wait));
                    return actions;
                }
                let game_info = match &self.currently_playing {
                    Some(g) => g.clone(),
                    None => String::new(),
                };
                let record = SessionRecord {
                    game_id: self.game_id.clone(),
                    game_info,
                    start: self.start_time,
                    end: now,
                };
                actions.push(TrackerAction::RecordSession(record));
                assert(action_views(actions@) =~= announced.push(
                    ActionView::RecordSession(self.game_id@, self@.playing->0, self.start_time, now),
                ));
                self.currently_playing = None;
                self.settle(&mut actions);
            },
        }
        actions
    }
}

/// The message given before waiting `delay` seconds from `now`:
/// `Next update: {clock}` with the time of the next poll in `timezone`.
pub fn next_update_message(now: &Timestamp, delay: u64, timezone: &str) -> (r: String)
    requires
        -MAX_DELTA_SECONDS <= (delay as i64) <= MAX_DELTA_SECONDS,
        now.seconds() + (delay as i64) <= LATEST_SECOND,
        (delay as i64) < 0 ==> EARLIEST_SECOND <= now.seconds() + (delay as i64),
    ensures
        r@ == "Next update: "@ + text_or_empty(
            zoned_time_text(
                (now.seconds() + (delay as i64)) as i64,
                now.subsec_nanos(),
                timezone@,
                "%H:%M:%S"@,
            ),
        ),
{
    // Reading the instant brings in that it lies in chrono's range.
    let _ = now.timestamp();
    let shift: i64 = #[verifier::truncate] (delay as i64);
    let next = shifted_by(now, shift);
    let clock = clock_text(&next, timezone);
    next_update_text(clock.as_str())
}

/// The message given before waiting, with the wall-clock time `clock` of
/// the next poll.
pub fn next_update_text(clock: &str) -> (r: String)
    ensures
        r@ == "Next update: "@ + clock@,
{
    let mut r = String::from_str("Next update: ");
    r.append(clock);
    r
}


/// A poll whose summary shows the player playing `game` (with game id `id`).
pub open spec fn playing_poll(game: Seq<char>, id: Option<Seq<char>>) -> PollView {
    PollView::Summary(Some((Some(game), id)))
}

/// A poll whose summary shows the player playing nothing.
pub open spec fn idle_poll(id: Option<Seq<char>>) -> PollView {
    PollView::Summary(Some((None, id)))
}

/// A session is recorded only when one was under way, and then it is the
/// session under way, ended at the poll's time, and no session remains under
/// way.
pub proof fn lemma_record_closes_session(
    s: TrackerView,
    outcome: PollView,
    now: Timestamp,
    timezone: Seq<char>,
    i: int,
)
    requires
        0 <= i < transition(s, outcome, now, timezone).1.len(),
        transition(s, outcome, now, timezone).1[i] is RecordSession,
    ensures
        s.playing is Some,
        transition(s, outcome, now, timezone).1[i] == ActionView::RecordSession(
            s.game_id,
            s.playing->0,
            s.start,
            now,
        ),
        transition(s, outcome, now, timezone).0.playing is None,
{
}

/// A poll asks for at most two actions, and a wait only as the last one.
pub proof fn lemma_actions_shape(s: TrackerView, outcome: PollView, now: Timestamp, timezone: Seq<char>)
    ensures
        transition(s, outcome, now, timezone).1.len() <= 2,
        forall|i: int|
            0 <= i < transition(s, outcome, now, timezone).1.len() - 1 ==> !(transition(
                s,
                outcome,
                now,
                timezone,
            ).1[i] is Wait),
{
}

/// A poll that lists no player changes nothing, reports the failure and
/// does not wait.
pub proof fn lemma_no_players(s: TrackerView, now: Timestamp, timezone: Seq<char>)
    ensures
        transition(s, PollView::Summary(None), now, timezone) == (
            s,
            seq![ActionView::ReportError("API request failed: No players returned."@)],
        ),
{
}

/// While the same game goes on being played, nothing is recorded and the
/// tracker waits before the next poll.
pub proof fn lemma_same_game_waits(
    s: TrackerView,
    id: Option<Seq<char>>,
    now: Timestamp,
    timezone: Seq<char>,
)
    requires
        s.playing is Some,
    ensures
        transition(s, playing_poll(s.playing->0, id), now, timezone) == (
            TrackerView { skip_waiting: false, ..s },
            seq![ActionView::Wait],
        ),
{
}

/// A game that starts being played at `t1` and stops at `t2` is recorded as
/// one session from `t1` to `t2`, with the game id given when it started.
pub proof fn lemma_start_then_stop(
    s: TrackerView,
    game: Seq<char>,
    id: Option<Seq<char>>,
    later_id: Option<Seq<char>>,
    t1: Timestamp,
    t2: Timestamp,
    timezone: Seq<char>,
)
    requires
        s.playing is None,
    ensures
        ({
            let (s1, a1) = transition(s, playing_poll(game, id), t1, timezone);
            let (s2, a2) = transition(s1, idle_poll(later_id), t2, timezone);
            &&& s1.playing == Some(game)
            &&& s1.start == t1
            &&& a1 == seq![
                ActionView::Announce(start_text(clock_of(t1, timezone), game)),
                ActionView::Wait,
            ]
            &&& s2.playing is None
            &&& a2[0] == ActionView::RecordSession(
                match id {
                    Some(i) => i,
                    None => missing_game_id(),
                },
                game,
                t1,
                t2,
            )
        }),
{
}

/// Switching from one game to another records the first game's session and,
/// without waiting, starts the second game's session at the next poll.
pub proof fn lemma_switch_game(
    s: TrackerView,
    next: Seq<char>,
    id: Option<Seq<char>>,
    t1: Timestamp,
    t2: Timestamp,
    timezone: Seq<char>,
)
    requires
        s.playing is Some,
        s.playing->0 != next,
    ensures
        ({
            let (s1, a1) = transition(s, playing_poll(next, id), t1, timezone);
            let (s2, a2) = transition(s1, playing_poll(next, id), t2, timezone);
            &&& a1 == seq![
                ActionView::RecordSession(s.game_id, s.playing->0, s.start, t1),
            ]
            &&& s1.playing is None
            &&& s1.skip_waiting
            &&& s2.playing == Some(next)
            &&& s2.start == t2
        }),
{
}

/// A session under way, as plain values: its game, game id and start.
pub struct OpenSession {
    pub game: Seq<char>,
    pub game_id: Seq<char>,
    pub start: Timestamp,
}

/// A finished session, as plain values.
pub struct SessionSpan {
    pub game_id: Seq<char>,
    pub game: Seq<char>,
    pub start: Timestamp,
    pub end: Timestamp,
}

/// The session that the tracker has under way, if any.
pub open spec fn open_session(s: TrackerView) -> Option<OpenSession> {
    match s.playing {
        Some(game) => Some(OpenSession { game, game_id: s.game_id, start: s.start }),
        None => None,
    }
}

/// What a poll shows of the player: the game name and game id of the first
/// player listed; `None` where the poll failed or listed no player.
pub open spec fn observed(poll: PollView) -> Option<(Option<Seq<char>>, Option<Seq<char>>)> {
    match poll {
        PollView::Summary(Some(seen)) => Some(seen),
        _ => None,
    }
}

/// The session under way after a poll at `now`, from the one under way
/// before: a poll that shows nothing changes nothing; one that shows a game
/// while none is under way starts its session; one that shows anything but
/// the game under way ends that session.
pub open spec fn session_after(open: Option<OpenSession>, poll: PollView, now: Timestamp) -> Option<
    OpenSession,
> {
    match observed(poll) {
        None => open,
        Some((game, id)) => match open {
            None => match game {
                Some(g) => Some(
                    OpenSession {
                        game: g,
                        game_id: match id {
                            Some(i) => i,
                            None => missing_game_id(),
                        },
                        start: now,
                    },
                ),
                None => None,
            },
            Some(o) => if game == Some(o.game) {
                Some(o)
            } else {
                None
            },
        },
    }
}

/// The session that a poll at `now` ends: the one under way, where the poll
/// shows anything but its game.
pub open spec fn session_ended(open: Option<OpenSession>, poll: PollView, now: Timestamp) -> Seq<
    SessionSpan,
> {
    match (open, observed(poll)) {
        (Some(o), Some((game, _))) => if game != Some(o.game) {
            seq![SessionSpan { game_id: o.game_id, game: o.game, start: o.start, end: now }]
        } else {
            Seq::empty()
        },
        _ => Seq::empty(),
    }
}

/// The session that a poll at `now` starts, as its game and start.
pub open spec fn session_started(open: Option<OpenSession>, poll: PollView, now: Timestamp) -> Seq<
    (Seq<char>, Timestamp),
> {
    match (open, observed(poll)) {
        (None, Some((Some(g), _))) => seq![(g, now)],
        _ => Seq::empty(),
    }
}

/// The session under way after the polls `polls` (each with its time), from
/// `open` before them.
pub open spec fn open_after(open: Option<OpenSession>, polls: Seq<(PollView, Timestamp)>) -> Option<
    OpenSession,
>
    decreases polls.len(),
{
    if polls.len() == 0 {
        open
    } else {
        session_after(open_after(open, polls.drop_last()), polls.last().0, polls.last().1)
    }
}

/// The sessions that the polls `polls` end, in order, from `open` before
/// them.
pub open spec fn sessions_ended(open: Option<OpenSession>, polls: Seq<(PollView, Timestamp)>) -> Seq<
    SessionSpan,
>
    decreases polls.len(),
{
    if polls.len() == 0 {
        Seq::empty()
    } else {
        sessions_ended(open, polls.drop_last()) + session_ended(
            open_after(open, polls.drop_last()),
            polls.last().0,
            polls.last().1,
        )
    }
}

/// The sessions that the polls `polls` start, in order, as game and start,
/// from `open` before them.
pub open spec fn sessions_started(open: Option<OpenSession>, polls: Seq<(PollView, Timestamp)>) -> Seq<
    (Seq<char>, Timestamp),
>
    decreases polls.len(),
{
    if polls.len() == 0 {
        Seq::empty()
    } else {
        sessions_started(open, polls.drop_last()) + session_started(
            open_after(open, polls.drop_last()),
            polls.last().0,
            polls.last().1,
        )
    }
}

/// The tracker's state and all its actions after the polls `polls` (each
/// with its time), one `step` after another from `s`.
pub open spec fn run(s: TrackerView, polls: Seq<(PollView, Timestamp)>, timezone: Seq<char>) -> (
    TrackerView,
    Seq<ActionView>,
)
    decreases polls.len(),
{
    if polls.len() == 0 {
        (s, Seq::empty())
    } else {
        let (s1, a1) = run(s, polls.drop_last(), timezone);
        let (s2, a2) = transition(s1, polls.last().0, polls.last().1, timezone);
        (s2, a1 + a2)
    }
}

/// The sessions recorded by `actions`, in order.
pub open spec fn recorded(actions: Seq<ActionView>) -> Seq<SessionSpan>
    decreases actions.len(),
{
    if actions.len() == 0 {
        Seq::empty()
    } else {
        match actions.last() {
            ActionView::RecordSession(game_id, game, start, end) => recorded(
                actions.drop_last(),
            ).push(SessionSpan { game_id, game, start, end }),
            _ => recorded(actions.drop_last()),
        }
    }
}

/// The messages announced by `actions`, in order.
pub open spec fn announced(actions: Seq<ActionView>) -> Seq<Seq<char>>
    decreases actions.len(),
{
    if actions.len() == 0 {
        Seq::empty()
    } else {
        match actions.last() {
            ActionView::Announce(m) => announced(actions.drop_last()).push(m),
            _ => announced(actions.drop_last()),
        }
    }
}

/// The start messages of sessions started as `started` lists them.
pub open spec fn start_messages(started: Seq<(Seq<char>, Timestamp)>, timezone: Seq<char>) -> Seq<
    Seq<char>,
> {
    started.map_values(|g: (Seq<char>, Timestamp)| start_text(clock_of(g.1, timezone), g.0))
}

proof fn lemma_recorded_append(a: Seq<ActionView>, b: Seq<ActionView>)
    ensures
        recorded(a + b) == recorded(a) + recorded(b),
        announced(a + b) == announced(a) + announced(b),
    decreases b.len(),
{
    if b.len() == 0 {
        assert(a + b =~= a);
        assert(recorded(a) + recorded(b) =~= recorded(a));
        assert(announced(a) + announced(b) =~= announced(a));
    } else {
        lemma_recorded_append(a, b.drop_last());
        assert((a + b).drop_last() =~= a + b.drop_last());
        assert((a + b).last() == b.last());
        assert(recorded(a) + recorded(b) =~= match b.last() {
            ActionView::RecordSession(game_id, game, start, end) => (recorded(a) + recorded(
                b.drop_last(),
            )).push(SessionSpan { game_id, game, start, end }),
            _ => recorded(a) + recorded(b.drop_last()),
        });
        assert(announced(a) + announced(b) =~= match b.last() {
            ActionView::Announce(m) => (announced(a) + announced(b.drop_last())).push(m),
            _ => announced(a) + announced(b.drop_last()),
        });
    }
}

/// One poll, seen as sessions: the tracker keeps under way, ends and starts
/// exactly the sessions that `session_after`, `session_ended` and
/// `session_started` say.
pub proof fn lemma_poll_sessions(s: TrackerView, poll: PollView, now: Timestamp, timezone: Seq<char>)
    ensures
        open_session(transition(s, poll, now, timezone).0) == session_after(open_session(s), poll, now),
        recorded(transition(s, poll, now, timezone).1) == session_ended(open_session(s), poll, now),
        announced(transition(s, poll, now, timezone).1) == start_messages(
            session_started(open_session(s), poll, now),
            timezone,
        ),
{
    let (s1, a) = transition(s, poll, now, timezone);
    reveal_with_fuel(recorded, 3);
    reveal_with_fuel(announced, 3);
    assert(a.len() <= 3);
    if a.len() == 1 {
        assert(a.drop_last() =~= Seq::<ActionView>::empty());
    } else if a.len() == 2 {
        assert(a.drop_last() =~= seq![a[0]]);
        assert(a.drop_last().drop_last() =~= Seq::<ActionView>::empty());
    } else if a.len() == 3 {
        assert(a.drop_last() =~= seq![a[0], a[1]]);
        assert(a.drop_last().drop_last() =~= seq![a[0]]);
        assert(a.drop_last().drop_last().drop_last() =~= Seq::<ActionView>::empty());
    }
    assert(recorded(a) =~= session_ended(open_session(s), poll, now));
    assert(announced(a) =~= start_messages(session_started(open_session(s), poll, now), timezone));
}

/// Over any sequence of polls, the tracker keeps a session under way from
/// the poll that first shows its game while none is under way to the first
/// later poll that shows anything else (polls that fail or list no player
/// change nothing); it records exactly the sessions so ended, each once, in
/// order, with the game id and time of the poll that started it and the
/// time of the poll that ended it; and it announces exactly the sessions so
/// started.
pub proof fn lemma_run_sessions(s: TrackerView, polls: Seq<(PollView, Timestamp)>, timezone: Seq<char>)
    ensures
        open_session(run(s, polls, timezone).0) == open_after(open_session(s), polls),
        recorded(run(s, polls, timezone).1) == sessions_ended(open_session(s), polls),
        announced(run(s, polls, timezone).1) == start_messages(
            sessions_started(open_session(s), polls),
            timezone,
        ),
    decreases polls.len(),
{
    if polls.len() == 0 {
        assert(recorded(Seq::<ActionView>::empty()) =~= Seq::<SessionSpan>::empty());
        assert(start_messages(Seq::empty(), timezone) =~= Seq::<Seq<char>>::empty());
    } else {
        let prefix = polls.drop_last();
        lemma_run_sessions(s, prefix, timezone);
        let (s1, a1) = run(s, prefix, timezone);
        let (s2, a2) = transition(s1, polls.last().0, polls.last().1, timezone);
        lemma_poll_sessions(s1, polls.last().0, polls.last().1, timezone);
        lemma_recorded_append(a1, a2);
        let open = open_after(open_session(s), prefix);
        assert(start_messages(
            sessions_started(open_session(s), prefix) + session_started(open, polls.last().0, polls.last().1),
            timezone,
        ) =~= start_messages(sessions_started(open_session(s), prefix), timezone) + start_messages(
            session_started(open, polls.last().0, polls.last().1),
            timezone,
        ));
    }
}

/// A poll that shows the player and ends no session (no session under way,
/// or the game under way still played) always asks, last, to wait the
/// configured delay before the next poll, whether or not waiting was being
/// skipped; and an idle player with no session under way changes nothing.
pub proof fn lemma_poll_without_end_waits(
    s: TrackerView,
    game: Option<Seq<char>>,
    id: Option<Seq<char>>,
    now: Timestamp,
    timezone: Seq<char>,
)
    requires
        !(s.playing is Some && game != s.playing),
    ensures
        ({
            let (s1, a) = transition(s, PollView::Summary(Some((game, id))), now, timezone);
            &&& a.len() >= 1
            &&& a.last() == ActionView::Wait
            &&& recorded(a) == Seq::<SessionSpan>::empty()
            &&& s1.playing == (if s.playing is Some {
                s.playing
            } else {
                game
            })
        }),
        s.playing is None ==> transition(s, idle_poll(id), now, timezone) == (
            s,
            seq![ActionView::Wait],
        ),
{
    let (s1, a) = transition(s, PollView::Summary(Some((game, id))), now, timezone);
    reveal_with_fuel(recorded, 3);
    if a.len() == 2 {
        assert(a.drop_last() =~= seq![a[0]]);
        assert(a.drop_last().drop_last() =~= Seq::<ActionView>::empty());
    } else {
        assert(a.drop_last() =~= Seq::<ActionView>::empty());
    }
    assert(recorded(a) =~= Seq::<SessionSpan>::empty());
    if s.playing is None {
        let (s2, a2) = transition(s, idle_poll(id), now, timezone);
        assert(s2 == s);
        assert(a2 =~= seq![ActionView::Wait]);
    }
}

} // verus!
