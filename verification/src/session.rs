//! Sessions: each can run one game at a time, with its own teams and configuration.
use crate::challenge::InOpenChallenge;
use crate::commands::{BroadcastAction, Error, ResponseAction};
use crate::config::{is_effective, Config, PartialConfig};
use crate::context::{EngineContext, EngineRecords, SessionContext};
use crate::mirror::{added, DBStatus};
use crate::entries::PictureEntry;
use crate::model::{PartialGameConfig, RawPicture};
use crate::runtime::OutsideWork;
use crate::env::GameEnv;
use crate::model::{
    Challenge, Colour, DetailedLocation, GameSession, Mode, Moment, Position, Team, TeamRole,
};
use crate::runtime::{
    answers, bad_data, not_found, not_found_numbered, succeeds_broadcasting, InternEngineResponse,
    InternEngineResponsePackage, RuntimeRequest, InternEngineCommand,
};
use crate::timer::{moment_after, next_timer_id, TimerTracker};
use crate::team::shows_challenge;
use crate::model::{lowercase, str_lowercase, Event, Game, GameDate, MinimalLocation, TimeOfDay};
use crate::team::{can_generate, origin, Period, PeriodContext, TeamEntry};
use crate::text::{date_display, date_text, decimal, decimal_text, with_number};
use crate::world::{
    choose_below, end_time_today, is_time_of_day, local_date, local_time_of_day, now_moment, today_at,
};
use crate::commands::{EngineAction, EngineCommand};
use crate::generation::has_zone_number;
use crate::timer::TimerHook;
use vstd::prelude::*;

verus! {

/// A game that is running.
#[derive(Debug, Clone)]
pub struct InGame {
    pub name: String,
    pub start_time: Moment,
    /// The local date at the start.
    pub date: GameDate,
    pub mode: Mode,
    /// The alarm that ends the game.
    pub timer: TimerHook,
}

impl InGame {
    /// The game as clients see it.
    pub fn to_sendable(&self) -> (g: Game)
        ensures
            g.name@ == self.name@,
            g.date == self.date,
            g.mode == self.mode,
    {
        Game { name: self.name.clone(), date: self.date, mode: self.mode }
    }
}

/// A game that ended, as stored.
#[derive(Debug, Clone)]
pub struct PastGame {
    pub name: String,
    pub start_time: Moment,
    pub end_time: Moment,
    pub mode: Mode,
    pub teams: Vec<PastTeam>,
}

/// A team of a game that ended.
#[derive(Debug, Clone)]
pub struct PastTeam {
    pub name: String,
    pub players: Vec<u64>,
    pub discord_channel: Option<u64>,
    pub end_role: TeamRole,
    pub colour: Colour,
    pub points: u64,
    pub bounty: u64,
    pub end_zone_id: u64,
    pub start_location: Option<Position>,
    pub end_location: Option<Position>,
    pub end_challenges: Vec<InOpenChallenge>,
    pub periods: Vec<PastPeriod>,
}

/// A period of a team of a game that ended.
#[derive(Debug, Clone)]
pub struct PastPeriod {
    pub context: PeriodContext,
    pub end_time: Moment,
    pub end_location: Position,
}


/// The position of a point of a track.
pub open spec fn position_of(m: MinimalLocation) -> Position {
    Position { latitude: m.latitude, longitude: m.longitude }
}

impl PastTeam {
    /// `self` is how team `t` is kept when its game ends: its last state, the first and last
    /// point of its track, its open challenges, and its periods, each with a moment on today's
    /// date and the point of the track where it ended (the origin where there is none).
    pub open spec fn keeps(self, t: TeamEntry) -> bool {
        &&& self.name@ == t.name@
        &&& self.players@ == t.players@
        &&& self.discord_channel == t.discord_channel
        &&& self.end_role == t.role
        &&& self.colour == t.colour
        &&& self.points == t.points
        &&& self.bounty == t.bounty
        &&& self.end_zone_id == t.current_zone_id
        &&& self.start_location == if t.locations@.len() > 0 {
            Some(position_of(t.locations@[0]))
        } else {
            None
        }
        &&& self.end_location == if t.locations@.len() > 0 {
            Some(position_of(t.locations@.last()))
        } else {
            None
        }
        &&& self.end_challenges@.len() == t.challenges@.len()
        &&& forall|k: int|
            0 <= k < t.challenges@.len() ==> (#[trigger] self.end_challenges@[k]).same_as(t.challenges@[k])
        &&& self.periods@.len() == t.periods@.len()
        &&& forall|k: int|
            0 <= k < t.periods@.len() ==> {
                let p = #[trigger] self.periods@[k];
                &&& p.context.same_as(t.periods@[k].context)
                &&& p.end_location == position_of(period_end_point(t, t.periods@[k]))
            }
    }

    /// How team `t` is kept when its game ends (see `keeps`); a period whose time of day does
    /// not exist today in a single way gets the moment `now`.
    pub fn from_team(t: &TeamEntry, now: Moment) -> (p: PastTeam)
        ensures
            p.keeps(*t),
    {
        let n = t.locations.len();
        let start_location = if n > 0 {
            Some(Position { latitude: t.locations[0].latitude, longitude: t.locations[0].longitude })
        } else {
            None
        };
        let end_location = if n > 0 {
            Some(Position { latitude: t.locations[n - 1].latitude, longitude: t.locations[n - 1].longitude })
        } else {
            None
        };
        let mut end_challenges: Vec<InOpenChallenge> = Vec::new();
        let mut k: usize = 0;
        while k < t.challenges.len()
            invariant
                k <= t.challenges@.len(),
                end_challenges@.len() == k,
                forall|l: int| 0 <= l < k ==> (#[trigger] end_challenges@[l]).same_as(t.challenges@[l]),
            decreases t.challenges@.len() - k,
        {
            end_challenges.push(t.challenges[k].duplicate());
            k = k + 1;
        }
        let mut periods: Vec<PastPeriod> = Vec::new();
        let mut k: usize = 0;
        while k < t.periods.len()
            invariant
                n == t.locations@.len(),
                k <= t.periods@.len(),
                periods@.len() == k,
                forall|l: int|
                    0 <= l < k ==> {
                        let p = #[trigger] periods@[l];
                        &&& p.context.same_as(t.periods@[l].context)
                        &&& p.end_location == position_of(period_end_point(*t, t.periods@[l]))
                    },
            decreases t.periods@.len() - k,
        {
            let p = &t.periods[k];
            let end = if p.location_end_index < n {
                t.locations[p.location_end_index]
            } else {
                MinimalLocation { latitude: 0, longitude: 0, timestamp: 0 }
            };
            let end_time = match today_at(p.end_time) {
                Some(m) => m,
                None => now,
            };
            periods.push(
                PastPeriod {
                    context: p.context.duplicate(),
                    end_time,
                    end_location: Position { latitude: end.latitude, longitude: end.longitude },
                },
            );
            k = k + 1;
        }
        let players = t.players.clone();
        assert(players@ =~= t.players@);
        PastTeam {
            name: t.name.clone(),
            players,
            discord_channel: t.discord_channel,
            end_role: t.role,
            colour: t.colour,
            points: t.points,
            bounty: t.bounty,
            end_zone_id: t.current_zone_id,
            start_location,
            end_location,
            end_challenges,
            periods,
        }
    }
}

impl PastGame {
    /// The game `game` of the teams `teams`, ending at `now`.
    pub fn new_now(game: InGame, teams: &Vec<TeamEntry>, now: Moment) -> (p: PastGame)
        ensures
            p.name == game.name,
            p.start_time == game.start_time,
            p.end_time == now,
            p.mode == game.mode,
            p.teams@.len() == teams@.len(),
            forall|k: int| 0 <= k < teams@.len() ==> (#[trigger] p.teams@[k]).keeps(teams@[k]),
    {
        let mut past: Vec<PastTeam> = Vec::new();
        let mut k: usize = 0;
        while k < teams.len()
            invariant
                k <= teams@.len(),
                past@.len() == k,
                forall|l: int| 0 <= l < k ==> (#[trigger] past@[l]).keeps(teams@[l]),
            decreases teams@.len() - k,
        {
            past.push(PastTeam::from_team(&teams[k], now));
            k = k + 1;
        }
        PastGame { name: game.name, start_time: game.start_time, end_time: now, mode: game.mode, teams: past }
    }
}

/// A session: a name, its teams, a configuration that overrides the defaults, and the game it
/// runs, if any.
#[derive(Debug, Clone)]
pub struct Session {
    pub name: String,
    pub teams: Vec<TeamEntry>,
    pub mode: Mode,
    pub config: PartialConfig,
    pub discord_server_id: Option<u64>,
    pub discord_game_channel: Option<u64>,
    pub discord_admin_channel: Option<u64>,
    pub game: Option<InGame>,
}


/// The highest points of the teams `teams`.
pub open spec fn top_points(teams: Seq<TeamEntry>) -> Option<u64>
    decreases teams.len(),
{
    if teams.len() == 0 {
        None
    } else {
        let p = teams.last().points;
        match top_points(teams.drop_last()) {
            None => Some(p),
            Some(q) => Some(if p > q { p } else { q }),
        }
    }
}

/// `c` is the context in which session `s` with id `session_id` handles a command, lent
/// `engine` by the engine.
pub open spec fn is_session_context(
    s: Session,
    engine: EngineContext,
    session_id: u64,
    c: SessionContext,
) -> bool {
    &&& c.engine_context == engine
    &&& c.top_team_points == top_points(s.teams@)
    &&& c.session_id == session_id
    &&& is_effective(s.config, c.config)
}

/// The teams `after` are `before` with team `i` replaced by `t`, where `i` is a team.
pub open spec fn replaces_team(before: Seq<TeamEntry>, after: Seq<TeamEntry>, i: usize, t: TeamEntry) -> bool {
    i < before.len() && after == before.update(i as int, t)
}

/// `p` answers the sender with `Success`, broadcasting the team `i` of `teams` as `made` says
/// (made catchers, made runners, left its grace period), seen at `now` with the players of
/// `players`.
pub open spec fn broadcasts_team(
    p: InternEngineResponsePackage,
    teams: Seq<TeamEntry>,
    i: usize,
    players: crate::mirror::DBMirror<crate::entries::PlayerEntry>,
    now: Moment,
    made: TeamNews,
) -> bool {
    &&& p.runtime_requests is None
    &&& p.response matches InternEngineResponse::DirectResponse(r)
    &&& r.response_action == ResponseAction::Success
    &&& r.broadcast_action matches Some(b)
    &&& match (made, b) {
        (TeamNews::MadeCatcher, BroadcastAction::TeamMadeCatcher(t)) => teams[i as int].shows_as(i, players, now, t),
        (TeamNews::MadeRunner, BroadcastAction::TeamMadeRunner(t)) => teams[i as int].shows_as(i, players, now, t),
        (TeamNews::LeftGracePeriod, BroadcastAction::TeamLeftGracePeriod(t)) => teams[i as int].shows_as(i, players, now, t),
        _ => false,
    }
}

/// What is broadcast about a single team.
pub enum TeamNews {
    MadeCatcher,
    MadeRunner,
    LeftGracePeriod,
}


/// Team `i` is the first of `teams` with player `player`.
pub open spec fn first_team_with(teams: Seq<TeamEntry>, player: u64, i: int) -> bool {
    &&& 0 <= i < teams.len()
    &&& teams[i].players@.contains(player)
    &&& forall|j: int| 0 <= j < i ==> !#[trigger] teams[j].players@.contains(player)
}

/// No team of `teams` has player `player`.
pub open spec fn no_team_with(teams: Seq<TeamEntry>, player: u64) -> bool {
    forall|j: int| 0 <= j < teams.len() ==> !#[trigger] teams[j].players@.contains(player)
}

/// `s` without the first occurrence of `p`.
pub open spec fn remove_first(s: Seq<u64>, p: u64) -> Seq<u64>
    decreases s.len(),
{
    if s.len() == 0 {
        s
    } else if s[0] == p {
        s.drop_first()
    } else {
        seq![s[0]] + remove_first(s.drop_first(), p)
    }
}

/// Removing the element at the first index `j` of `p` removes the first occurrence of `p`.
proof fn lemma_remove_first(s: Seq<u64>, p: u64, j: int)
    requires
        0 <= j < s.len(),
        s[j] == p,
        forall|k: int| 0 <= k < j ==> s[k] != p,
    ensures
        s.remove(j) == remove_first(s, p),
    decreases j,
{
    if j > 0 {
        lemma_remove_first(s.drop_first(), p, j - 1);
        assert(s.remove(j) =~= seq![s[0]] + s.drop_first().remove(j - 1));
    } else {
        assert(s.remove(0) =~= s.drop_first());
    }
}

/// Where `p` does not occur, nothing is removed.
proof fn lemma_remove_absent(s: Seq<u64>, p: u64)
    requires
        !s.contains(p),
    ensures
        remove_first(s, p) == s,
    decreases s.len(),
{
    if s.len() > 0 {
        assert(s.drop_first().contains(p) ==> s.contains(p)) by {
            if s.drop_first().contains(p) {
                let k = choose|k: int| 0 <= k < s.drop_first().len() && s.drop_first()[k] == p;
                assert(s[k + 1] == p);
            }
        }
        lemma_remove_absent(s.drop_first(), p);
        assert(s =~= seq![s[0]] + s.drop_first());
    }
}

/// The last team of `teams` with player `player`.
pub open spec fn last_team_with(teams: Seq<TeamEntry>, player: u64) -> Option<usize>
    decreases teams.len(),
{
    if teams.len() == 0 {
        None
    } else if teams.last().players@.contains(player) {
        Some((teams.len() - 1) as usize)
    } else {
        last_team_with(teams.drop_last(), player)
    }
}

/// `after` is `before` with the first occurrence of `player` removed from every team.
pub open spec fn player_removed(before: Seq<TeamEntry>, after: Seq<TeamEntry>, player: u64) -> bool {
    &&& after.len() == before.len()
    &&& forall|i: int| 0 <= i < before.len() ==> #[trigger] after[i] == (TeamEntry { players: after[i].players, ..before[i] })
    &&& forall|i: int| 0 <= i < before.len() ==> #[trigger] after[i].players@ == remove_first(before[i].players@, player)
}


/// `after` is `before` with `player` moved to team `t`: the first occurrence of the player is
/// removed from every team, and the player is added to the end of team `t`.
pub open spec fn moves_player(before: Seq<TeamEntry>, after: Seq<TeamEntry>, player: u64, t: int) -> bool {
    &&& 0 <= t < before.len()
    &&& after.len() == before.len()
    &&& forall|i: int|
        0 <= i < before.len() ==> #[trigger] after[i] == (TeamEntry { players: after[i].players, ..before[i] })
    &&& forall|i: int|
        0 <= i < before.len() && i != t ==> (#[trigger] after[i]).players@ == remove_first(before[i].players@, player)
    &&& after[t].players@ == remove_first(before[t].players@, player).push(player)
}

/// `p` occurs at most once in `s`.
pub open spec fn at_most_once(s: Seq<u64>, p: u64) -> bool {
    forall|j: int, k: int| 0 <= j < s.len() && 0 <= k < s.len() && s[j] == p && s[k] == p ==> j == k
}

/// Removing the only occurrence of `p` leaves none.
proof fn lemma_remove_only(s: Seq<u64>, p: u64)
    requires
        at_most_once(s, p),
    ensures
        !remove_first(s, p).contains(p),
{
    if s.contains(p) {
        let j = choose|j: int| 0 <= j < s.len() && s[j] == p;
        assert(forall|k: int| 0 <= k < j ==> s[k] != p);
        lemma_remove_first(s, p, j);
        if s.remove(j).contains(p) {
            let k = choose|k: int| 0 <= k < s.remove(j).len() && s.remove(j)[k] == p;
            if k < j {
                assert(s[k] == p);
            } else {
                assert(s[k + 1] == p);
            }
        }
    } else {
        lemma_remove_absent(s, p);
    }
}

/// One team after a player is moved to team `t`.
proof fn lemma_moved_player_team(
    before: Seq<TeamEntry>,
    after: Seq<TeamEntry>,
    player: u64,
    t: int,
    i: int,
)
    requires
        moves_player(before, after, player, t),
        0 <= i < before.len(),
        at_most_once(before[i].players@, player),
    ensures
        after[i].players@.contains(player) <==> i == t,
        at_most_once(after[i].players@, player),
{
    lemma_remove_only(before[i].players@, player);
    let r = remove_first(before[i].players@, player);
    let a = after[i].players@;
    if i == t {
        assert(a[r.len() as int] == player);
        assert forall|j: int, k: int|
            0 <= j < a.len() && 0 <= k < a.len() && a[j] == player && a[k] == player implies j == k by {
            if j < r.len() {
                assert(r[j] == player);
            }
            if k < r.len() {
                assert(r[k] == player);
            }
        }
    } else {
        assert forall|j: int, k: int|
            0 <= j < a.len() && 0 <= k < a.len() && a[j] == player && a[k] == player implies j == k by {
            assert(r[j] == player);
        }
    }
}

/// Law: after a player is moved to team `t`, team `t` is the only team with the player, and
/// has it once, provided no team had the player twice before.
pub proof fn law_moved_player_in_one_team(
    before: Seq<TeamEntry>,
    after: Seq<TeamEntry>,
    player: u64,
    t: int,
)
    requires
        moves_player(before, after, player, t),
        forall|i: int| 0 <= i < before.len() ==> at_most_once(#[trigger] before[i].players@, player),
    ensures
        forall|i: int| 0 <= i < after.len() ==> (#[trigger] after[i].players@.contains(player) <==> i == t),
        forall|i: int| 0 <= i < after.len() ==> at_most_once(#[trigger] after[i].players@, player),
{
    assert forall|i: int| 0 <= i < after.len() implies (#[trigger] after[i].players@.contains(player) <==> i == t) by {
        lemma_moved_player_team(before, after, player, t, i);
    }
    assert forall|i: int| 0 <= i < after.len() implies at_most_once(#[trigger] after[i].players@, player) by {
        lemma_moved_player_team(before, after, player, t, i);
    }
}


/// The catch of team `caught` by team `catcher` at `now` (`time` of day) was done: `after` are
/// the teams `before` with the catchers having caught (with the timer id that `timers_after`
/// handed out) and the caught having been caught, and `p` answers the catchers' new period id,
/// broadcasts both teams as they were before, and asks for the grace period's timer.
pub open spec fn catch_done(
    before: Seq<TeamEntry>,
    after: Seq<TeamEntry>,
    catcher: usize,
    caught: usize,
    context: SessionContext,
    timers_before: TimerTracker,
    timers_after: TimerTracker,
    now: Moment,
    time: TimeOfDay,
    p: InternEngineResponsePackage,
) -> bool {
    let players = *context.engine_context.player_db;
    &&& after == before.update(catcher as int, after[catcher as int]).update(caught as int, after[caught as int])
    &&& timers_after.current_id == next_timer_id(timers_before.current_id)
    &&& before[catcher as int].has_caught_as(
        after[catcher as int],
        before[caught as int].bounty,
        caught,
        catcher,
        context,
        timers_after.current_id,
        now,
        time,
    )
    &&& before[caught as int].is_caught_as(after[caught as int], catcher, time)
    &&& p.response matches InternEngineResponse::DirectResponse(r)
    &&& r.response_action == ResponseAction::Period(before[catcher as int].periods@.len() as usize)
    &&& r.broadcast_action matches Some(BroadcastAction::Caught { catcher: t1, caught: t2 })
    &&& before[catcher as int].shows_as(catcher, players, now, t1)
    &&& before[caught as int].shows_as(caught, players, now, t2)
    &&& p.runtime_requests matches Some(v)
    &&& v@.len() == 1
    &&& v@[0] matches RuntimeRequest::CreateAlarm { time: at, payload, id }
    &&& at == moment_after(now, context.config.grace_period_duration)
    &&& id == timers_after.current_id
    &&& payload == (InternEngineCommand::TeamLeftGracePeriod { session_id: context.session_id, team_id: catcher })
}

/// Team `completer` completed its challenge at index `completed` at `now` (`time` of day):
/// `after` are the teams `before` with that team having completed it, and `p` answers the
/// team's new period id, broadcasts the team as it is now and the challenge, and asks to cancel
/// the timer of its grace period if it had one.
pub open spec fn completion_done(
    before: Seq<TeamEntry>,
    after: Seq<TeamEntry>,
    completer: usize,
    completed: usize,
    context: SessionContext,
    now: Moment,
    time: TimeOfDay,
    p: InternEngineResponsePackage,
) -> bool {
    let team = after[completer as int];
    let done = before[completer as int].challenges@[completed as int];
    &&& after == before.update(completer as int, team)
    &&& exists|c: InOpenChallenge, request: Option<RuntimeRequest>|
        before[completer as int].completes_as(team, completed, context, time, c, request)
    &&& p.response matches InternEngineResponse::DirectResponse(r)
    &&& r.response_action == ResponseAction::Period((team.periods@.len() - 1) as usize)
    &&& r.broadcast_action matches Some(BroadcastAction::Completed { completer: t, completed: ch })
    &&& team.shows_as(completer, *context.engine_context.player_db, now, t)
    &&& shows_challenge(done, ch)
    &&& match before[completer as int].grace_period_end {
        Some(h) => p.runtime_requests matches Some(v) && v@ == seq![RuntimeRequest::CancelTimer(h.id)],
        None => p.runtime_requests is None,
    }
}


/// Whether a period makes an event: a catch, or a completed challenge.
pub open spec fn makes_event(p: Period) -> bool {
    p.context is Catcher || p.context is CompletedChallenge
}

/// Where the track of team `t` stood at the end of period `p`: its point at the period's end
/// index, or the origin where the track has no such point.
pub open spec fn period_end_point(t: TeamEntry, p: Period) -> MinimalLocation {
    if p.location_end_index < t.locations@.len() {
        t.locations@[p.location_end_index as int]
    } else {
        origin()
    }
}

/// `e` is the event of period `j` of team `i` of `teams`.
pub open spec fn shows_event(teams: Seq<TeamEntry>, i: int, j: int, e: Event) -> bool {
    let t = teams[i];
    let p = t.periods@[j];
    match p.context {
        PeriodContext::CompletedChallenge { title, description, points, .. } => match e {
            Event::Complete { challenge, completer_id, time, picture_ids, location } => {
                &&& challenge.title@ == title@
                &&& challenge.description@ == description@
                &&& challenge.points == points
                &&& completer_id == i
                &&& time == p.end_time
                &&& picture_ids@ == p.pictures@
                &&& location == period_end_point(t, p)
            },
            _ => false,
        },
        PeriodContext::Catcher { caught_team, bounty } => match e {
            Event::Catch { catcher_id, caught_id, bounty: b, time, picture_ids, location } => {
                &&& catcher_id == i
                &&& caught_id == caught_team
                &&& b == bounty
                &&& time == p.end_time
                &&& picture_ids@ == p.pictures@
                &&& location == period_end_point(t, p)
            },
            _ => false,
        },
        _ => false,
    }
}

/// The periods that make events, as (team, period) pairs: those of the teams before `i`, and
/// those of team `i` before `j`, in this order.
pub open spec fn sources_upto(teams: Seq<TeamEntry>, i: int, j: int) -> Seq<(int, int)>
    decreases i, j,
{
    if j > 0 && i < teams.len() {
        let before = sources_upto(teams, i, j - 1);
        if j - 1 < teams[i].periods@.len() && makes_event(teams[i].periods@[j - 1]) {
            before.push((i, j - 1))
        } else {
            before
        }
    } else if i > 0 {
        sources_upto(teams, i - 1, teams[i - 1].periods@.len() as int)
    } else {
        Seq::empty()
    }
}

/// The periods of all teams that make events, team by team, each team's in order.
pub open spec fn event_sources(teams: Seq<TeamEntry>) -> Seq<(int, int)> {
    sources_upto(teams, teams.len() as int, 0)
}

/// `events` are the events of the periods `event_sources(teams)`, ordered by time and, among
/// those at the same time, as in `event_sources` (the sources of the events being
/// `event_sources(teams)[order[k]]`).
pub open spec fn events_in_order(teams: Seq<TeamEntry>, events: Seq<Event>, order: Seq<int>) -> bool {
    let srcs = event_sources(teams);
    &&& events.len() == srcs.len()
    &&& order.len() == srcs.len()
    &&& forall|k: int| 0 <= k < order.len() ==> 0 <= #[trigger] order[k] < srcs.len()
    &&& forall|k: int, l: int| 0 <= k < l < order.len() ==> order[k] != order[l]
    &&& forall|k: int|
        0 <= k < events.len() ==> shows_event(teams, srcs[order[k]].0, srcs[order[k]].1, #[trigger] events[k])
    &&& forall|k: int, l: int|
        0 <= k < l < events.len() ==> events[k].spec_time().not_after(events[l].spec_time())
    &&& forall|k: int, l: int|
        0 <= k < l < events.len() && events[k].spec_time() == events[l].spec_time() ==> order[k] < order[l]
}

/// Sorts `events` by time, keeping the order of events at the same time: the result `r` holds
/// `events[order[k]]` at `k`.
fn sort_by_time(events: Vec<Event>) -> (r: (Vec<Event>, Ghost<Seq<int>>))
    ensures
        r.0@.len() == events@.len(),
        r.1@.len() == events@.len(),
        forall|k: int| 0 <= k < r.1@.len() ==> 0 <= #[trigger] r.1@[k] < events@.len(),
        forall|k: int, l: int| 0 <= k < l < r.1@.len() ==> r.1@[k] != r.1@[l],
        forall|k: int| 0 <= k < r.0@.len() ==> #[trigger] r.0@[k] == events@[r.1@[k]],
        forall|k: int, l: int|
            0 <= k < l < r.0@.len() ==> r.0@[k].spec_time().not_after(r.0@[l].spec_time()),
        forall|k: int, l: int|
            0 <= k < l < r.0@.len() && r.0@[k].spec_time() == r.0@[l].spec_time() ==> r.1@[k] < r.1@[l],
{
    let ghost orig = events@;
    assert(orig.len() == events.len());
    let mut rest = events;
    let mut out: Vec<Event> = Vec::new();
    let ghost mut order: Seq<int> = Seq::empty();
    let mut n: usize = 0;
    while rest.len() > 0
        invariant
            orig.len() <= usize::MAX,
            n + rest@.len() == orig.len(),
            rest@ == orig.subrange(n as int, orig.len() as int),
            out@.len() == n,
            order.len() == n,
            forall|k: int| 0 <= k < order.len() ==> 0 <= #[trigger] order[k] < n,
            forall|k: int, l: int| 0 <= k < l < order.len() ==> order[k] != order[l],
            forall|k: int| 0 <= k < out@.len() ==> #[trigger] out@[k] == orig[order[k]],
            forall|k: int, l: int|
                0 <= k < l < out@.len() ==> out@[k].spec_time().not_after(out@[l].spec_time()),
            forall|k: int, l: int|
                0 <= k < l < out@.len() && out@[k].spec_time() == out@[l].spec_time() ==> order[k] < order[l],
        decreases rest@.len(),
    {
        let e = rest.remove(0);
        let t = e.time();
        let mut pos: usize = 0;
        while pos < out.len() && !t.is_before(&out[pos].time())
            invariant
                pos <= out@.len(),
                forall|k: int| 0 <= k < pos ==> out@[k].spec_time().not_after(t),
                forall|k: int, l: int|
                    0 <= k < l < out@.len() ==> out@[k].spec_time().not_after(out@[l].spec_time()),
            decreases out@.len() - pos,
        {
            pos = pos + 1;
        }
        let ghost old_out = out@;
        let ghost old_order = order;
        out.insert(pos, e);
        proof {
            order = old_order.insert(pos as int, n as int);
            assert forall|l: int| pos <= l < old_out.len() implies t.before(old_out[l].spec_time()) by {
                if l > pos {
                    assert(old_out[pos as int].spec_time().not_after(old_out[l].spec_time()));
                }
            }
        }
        n = n + 1;
        proof {
            assert(rest@ =~= orig.subrange(n as int, orig.len() as int));
            assert forall|k: int, l: int|
                0 <= k < l < out@.len() implies out@[k].spec_time().not_after(out@[l].spec_time()) by {
                if k < pos && l > pos {
                    assert(out@[k] == old_out[k]);
                    assert(out@[l] == old_out[l - 1]);
                }
            }
        }
    }
    (out, Ghost(order))
}


/// `p` answers the sender with the events of `teams`, whose sources are in the order `order`
/// (see `events_in_order`).
pub open spec fn sends_events(p: InternEngineResponsePackage, teams: Seq<TeamEntry>, order: Seq<int>) -> bool {
    &&& p.runtime_requests is None
    &&& p.response matches InternEngineResponse::DirectResponse(r)
    &&& r.broadcast_action is None
    &&& r.response_action matches ResponseAction::SendEvents(evs)
    &&& events_in_order(teams, evs@, order)
}

/// `p` answers the sender with the state of session `s` at `now`: its teams, with the players
/// of `players`, its events, whose sources are in the order `order`, and its game.
pub open spec fn sends_state(
    p: InternEngineResponsePackage,
    s: Session,
    players: crate::mirror::DBMirror<crate::entries::PlayerEntry>,
    now: Moment,
    order: Seq<int>,
) -> bool {
    &&& p.runtime_requests is None
    &&& p.response matches InternEngineResponse::DirectResponse(r)
    &&& r.broadcast_action is None
    &&& r.response_action matches ResponseAction::SendState { teams, events, game }
    &&& shows_teams(s.teams@, players, now, teams@)
    &&& events_in_order(s.teams@, events@, order)
    &&& match (s.game, game) {
        (None, None) => true,
        (Some(a), Some(b)) => b.name@ == a.name@ && b.date == a.date && b.mode == a.mode,
        _ => false,
    }
}

/// `ts` is how clients see the teams `teams` at `now`, with the players of `players`.
pub open spec fn shows_teams(
    teams: Seq<TeamEntry>,
    players: crate::mirror::DBMirror<crate::entries::PlayerEntry>,
    now: Moment,
    ts: Seq<Team>,
) -> bool {
    &&& ts.len() == teams.len()
    &&& forall|i: int| 0 <= i < teams.len() ==> teams[i].shows_as(i as usize, players, now, #[trigger] ts[i])
}

/// `p` answers the sender that a team with a name like `name` exists.
pub open spec fn refuses_existing(p: InternEngineResponsePackage, name: Seq<char>) -> bool {
    &&& p.runtime_requests is None
    &&& p.response matches InternEngineResponse::DirectResponse(r)
    &&& r.broadcast_action is None
    &&& r.response_action matches ResponseAction::Error(Error::TeamExists(m))
    &&& m@ == name
}

/// The colour for a new team among `teams`: the one asked for, else the first colour of
/// `palette` that no team has, else black.
pub open spec fn colour_for(asked: Option<Colour>, palette: Seq<Colour>, teams: Seq<TeamEntry>) -> Colour {
    match asked {
        Some(c) => c,
        None => first_free_colour(palette, teams),
    }
}

/// The first colour of `palette` that no team of `teams` has, else black.
pub open spec fn first_free_colour(palette: Seq<Colour>, teams: Seq<TeamEntry>) -> Colour
    decreases palette.len(),
{
    if palette.len() == 0 {
        Colour { r: 0, g: 0, b: 0 }
    } else if forall|i: int| 0 <= i < teams.len() ==> #[trigger] teams[i].colour != palette[0] {
        palette[0]
    } else {
        first_free_colour(palette.drop_first(), teams)
    }
}


/// Whether `v` holds `x`.
fn contains_index(v: &Vec<usize>, x: usize) -> (b: bool)
    ensures
        b == v@.contains(x),
{
    let mut k: usize = 0;
    while k < v.len()
        invariant
            k <= v@.len(),
            forall|l: int| 0 <= l < k ==> v@[l] != x,
        decreases v@.len() - k,
    {
        if v[k] == x {
            return true;
        }
        k = k + 1;
    }
    false
}

/// `cs` are `n` distinct team ids below `len`.
pub open spec fn picks_catchers(cs: Seq<usize>, n: int, len: int) -> bool {
    &&& cs.len() == n
    &&& forall|k: int| 0 <= k < cs.len() ==> #[trigger] cs[k] < len
    &&& forall|k: int, l: int| 0 <= k < l < cs.len() ==> cs[k] != cs[l]
}

/// The teams `after` are the teams `before` started for a game of `context`, those of `cs` as
/// catchers and the others as runners.
pub open spec fn teams_started(
    before: Seq<TeamEntry>,
    after: Seq<TeamEntry>,
    cs: Seq<usize>,
    context: SessionContext,
) -> bool {
    &&& after.len() == before.len()
    &&& forall|i: int|
        0 <= i < before.len() && cs.contains(i as usize) ==> #[trigger] before[i].started_as_catcher(
            after[i],
            context,
        )
    &&& forall|i: int|
        0 <= i < before.len() && !cs.contains(i as usize) ==> #[trigger] before[i].started_as_runner(
            after[i],
            context,
        )
}

/// The command that ends the game of session `session_id`.
pub open spec fn stop_command(session_id: u64) -> InternEngineCommand {
    InternEngineCommand::Command(
        Box::new(EngineCommand { session: Some(session_id), action: EngineAction::Stop }),
    )
}

/// The game of `before` was started in `after`: `num_catchers` teams chosen at random started
/// as catchers and the others as runners, the game is named after the session and the date,
/// its end alarm got the id that `timers_after` handed out, the teams and the game are
/// broadcast, and the alarm is asked for.
pub open spec fn game_started(
    before: Session,
    after: Session,
    context: SessionContext,
    timers_before: TimerTracker,
    timers_after: TimerTracker,
    p: InternEngineResponsePackage,
) -> bool {
    let n = context.config.num_catchers as usize;
    &&& exists|cs: Seq<usize>|
        picks_catchers(cs, n as int, before.teams@.len() as int) && #[trigger] teams_started(
            before.teams@,
            after.teams@,
            cs,
            context,
        )
    &&& timers_after.current_id == next_timer_id(timers_before.current_id)
    &&& after.game matches Some(g)
    &&& g.name@ == before.name@ + " am "@ + date_display(g.date.year, g.date.month, g.date.day)
    &&& g.mode == before.mode
    &&& g.timer.id == timers_after.current_id
    &&& g.timer.payload == stop_command(context.session_id)
    &&& p.response matches InternEngineResponse::DirectResponse(r)
    &&& r.response_action == ResponseAction::Success
    &&& r.broadcast_action matches Some(BroadcastAction::Started { teams, game })
    &&& shows_teams(after.teams@, *context.engine_context.player_db, g.start_time, teams@)
    &&& game.name@ == g.name@ && game.date == g.date && game.mode == g.mode
    &&& p.runtime_requests matches Some(v)
    &&& v@.len() == 1
    &&& v@[0] matches RuntimeRequest::CreateAlarm { time, payload, id }
    &&& time == g.timer.end_time && id == g.timer.id && payload == stop_command(context.session_id)
}


/// The requests that cancel the grace period timers of the teams `teams`, in team order.
pub open spec fn grace_cancels(teams: Seq<TeamEntry>) -> Seq<RuntimeRequest> {
    teams.filter_map(
        |t: TeamEntry|
            match t.grace_period_end {
                Some(h) => Some(RuntimeRequest::CancelTimer(h.id)),
                None => None,
            },
    )
}

/// `past` keeps the game `g` of the teams `teams`, as it ended at some moment.
pub open spec fn keeps_game(past: PastGame, g: InGame, teams: Seq<TeamEntry>) -> bool {
    &&& past.name == g.name
    &&& past.start_time == g.start_time
    &&& past.mode == g.mode
    &&& past.teams@.len() == teams.len()
    &&& forall|k: int| 0 <= k < teams.len() ==> (#[trigger] past.teams@[k]).keeps(teams[k])
}


/// The points of `track` sent since `since`.
pub open spec fn track_since(track: Seq<MinimalLocation>, since: int) -> Seq<MinimalLocation> {
    track.filter(|m: MinimalLocation| m.timestamp >= since)
}

/// The first moment, in seconds, of the last `seconds` seconds before `now` (milliseconds, cut
/// to whole seconds towards zero).
pub open spec fn seconds_ago(now: Moment, seconds: u32) -> int {
    (if now >= 0 {
        now / 1000
    } else {
        -((-now) / 1000)
    }) - seconds
}


/// The teams `after` are `before` but for the pictures of period `period_id` of team `team_id`.
pub open spec fn final_period_shape(before: Seq<TeamEntry>, after: Seq<TeamEntry>, team_id: usize, period_id: usize) -> bool {
    let t = before[team_id as int];
    let u = after[team_id as int];
    let p = t.periods@[period_id as int];
    let q = u.periods@[period_id as int];
    &&& after.len() == before.len()
    &&& forall|i: int| 0 <= i < before.len() && i != team_id ==> #[trigger] after[i] == before[i]
    &&& u == (TeamEntry { periods: u.periods, ..t })
    &&& u.periods@.len() == t.periods@.len()
    &&& forall|j: int| 0 <= j < t.periods@.len() && j != period_id ==> #[trigger] u.periods@[j] == t.periods@[j]
    &&& q == (Period { pictures: q.pictures, ..p })
}

/// The picture ids `after` are `before` followed by one id for each picture of `pictures`,
/// under which the collection `db_after` holds it as a challenge picture; `db_after` is
/// `db_before` with these pictures added.
pub open spec fn stores_pictures(
    before: Seq<u64>,
    after: Seq<u64>,
    pictures: Seq<RawPicture>,
    db_before: Seq<crate::mirror::Slot<PictureEntry>>,
    db_after: Seq<crate::mirror::Slot<PictureEntry>>,
) -> bool {
    let ids = after.skip(before.len() as int);
    &&& after.len() == before.len() + pictures.len()
    &&& after.take(before.len() as int) == before
    &&& db_after.len() >= db_before.len()
    &&& forall|k: int| 0 <= k < pictures.len() ==> db_after[#[trigger] ids[k] as int]
        == Some((PictureEntry::ChallengePicture(pictures[k]), DBStatus::Edited))
    &&& forall|k: int| 0 <= k < pictures.len() ==> #[trigger] ids[k] < db_after.len()
    &&& forall|j: int| 0 <= j < db_before.len() && db_before[j] is Some ==> #[trigger] db_after[j] == db_before[j]
    &&& forall|k: int, l: int| 0 <= k < l < pictures.len() ==> #[trigger] ids[k] != #[trigger] ids[l]
    &&& forall|k: int| 0 <= k < pictures.len() ==> db_before.len() <= #[trigger] ids[k] || db_before[ids[k] as int] is None
}

/// Storing one more picture keeps `stores_pictures`.
proof fn lemma_store_one(
    before: Seq<u64>,
    mid: Seq<u64>,
    pictures: Seq<RawPicture>,
    db_before: Seq<crate::mirror::Slot<PictureEntry>>,
    db_mid: Seq<crate::mirror::Slot<PictureEntry>>,
    db_after: Seq<crate::mirror::Slot<PictureEntry>>,
    id: u64,
    picture: RawPicture,
)
    requires
        stores_pictures(before, mid, pictures, db_before, db_mid),
        added(db_mid, db_after, id as int, PictureEntry::ChallengePicture(picture)),
    ensures
        stores_pictures(before, mid.push(id), pictures.push(picture), db_before, db_after),
{
    let after = mid.push(id);
    let n = before.len() as int;
    let ids0 = mid.skip(n);
    let ids = after.skip(n);
    assert(ids =~= ids0.push(id));
    assert(after.take(n) =~= mid.take(n));
    assert forall|k: int| 0 <= k < pictures.len() implies ids0[k] != id by {
        assert(db_mid[ids0[k] as int] is Some);
    }
    assert forall|k: int| 0 <= k < pictures.push(picture).len() implies db_after[#[trigger] ids[k] as int]
        == Some((PictureEntry::ChallengePicture(pictures.push(picture)[k]), DBStatus::Edited)) by {
        if k < pictures.len() {
            assert(ids[k] == ids0[k]);
            assert(db_mid[ids0[k] as int] is Some);
        }
    }
    assert forall|j: int| 0 <= j < db_before.len() && db_before[j] is Some implies #[trigger] db_after[j] == db_before[j] by {
        assert(db_mid[j] is Some);
    }
    assert forall|k: int| 0 <= k < pictures.push(picture).len() implies db_before.len() <= #[trigger] ids[k] || db_before[ids[k] as int] is None by {
        if k == pictures.len() {
            if id < db_before.len() {
                assert(db_mid[id as int] is None);
                if db_before[id as int] is Some {
                    assert(db_mid[id as int] == db_before[id as int]);
                }
            }
        } else {
            assert(ids[k] == ids0[k]);
        }
    }
    assert forall|k: int| 0 <= k < pictures.push(picture).len() implies #[trigger] ids[k] < db_after.len() by {
        if k < pictures.len() {
            assert(ids[k] == ids0[k]);
        }
    }
    assert forall|k: int, l: int| 0 <= k < l < pictures.push(picture).len() implies #[trigger] ids[k] != #[trigger] ids[l] by {
        if l == pictures.len() {
            assert(ids[k] == ids0[k]);
        } else {
            assert(ids[k] == ids0[k]);
            assert(ids[l] == ids0[l]);
        }
    }
}

/// `pictures` were stored as pictures of period `period_id` of team `team_id`: the teams
/// `after` are `before` with their ids added to that period (see `stores_pictures`).
pub open spec fn pictures_stored(
    before: Seq<TeamEntry>,
    after: Seq<TeamEntry>,
    team_id: usize,
    period_id: usize,
    pictures: Seq<RawPicture>,
    db_before: Seq<crate::mirror::Slot<PictureEntry>>,
    db_after: Seq<crate::mirror::Slot<PictureEntry>>,
) -> bool {
    &&& final_period_shape(before, after, team_id, period_id)
    &&& stores_pictures(
        before[team_id as int].periods@[period_id as int].pictures@,
        after[team_id as int].periods@[period_id as int].pictures@,
        pictures,
        db_before,
        db_after,
    )
}

/// A team's grace period ended: what the session `s0` becomes (`s1`) and answers (`p`).
pub open spec fn handles_team_left_grace_period(
    s0: Session,
    s1: Session,
    team_id: usize,
    session_id: u64,
    context: EngineContext,
    now: Moment,
    p: InternEngineResponsePackage,
) -> bool {
    &&& (s1 == (Session { teams: s1.teams, ..s0 }))
    &&& (team_id < s0.teams@.len() ==> replaces_team(
                    s0.teams@,
                    s1.teams@,
                    team_id,
                    TeamEntry { grace_period_end: None, ..s0.teams@[team_id as int] },
                ) && broadcasts_team(
                    p,
                    s1.teams@,
                    team_id,
                    *context.player_db,
                    now,
                    TeamNews::LeftGracePeriod,
                ))
    &&& (team_id >= s0.teams@.len() ==> s1.teams == s0.teams && answers(
                    p,
                    ResponseAction::Success,
                ))
}

/// New challenges were generated for a team: what the session `s0` becomes (`s1`) and answers (`p`).
pub open spec fn handles_generate_team_challenges(
    s0: Session,
    s1: Session,
    id: usize,
    context: SessionContext,
    p: InternEngineResponsePackage,
) -> bool {
    &&& (s1 == (Session { teams: s1.teams, ..s0 }))
    &&& (id >= s0.teams@.len() ==> s1.teams == s0.teams && not_found(
                    p,
                    "team with id "@ + decimal(id as u64),
                ))
    &&& (id < s0.teams@.len() ==> answers(p, ResponseAction::Success) && {
                    let before = s0.teams@[id as int];
                    let after = s1.teams@[id as int];
                    &&& s1.teams@ == s0.teams@.update(id as int, after)
                    &&& after == (TeamEntry { challenges: after.challenges, ..before })
                    &&& after.challenges == before.challenges || crate::generation::stems_from_store(
                        after.challenges@,
                        *context.engine_context.challenge_db,
                    )
                    &&& can_generate(before.current_zone_id, context)
                        ==> crate::generation::stems_from_store(
                        after.challenges@,
                        *context.engine_context.challenge_db,
                    )
                })
}

/// A challenge was added to a team: what the session `s0` becomes (`s1`) and answers (`p`).
pub open spec fn handles_add_challenge_to_team(
    s0: Session,
    s1: Session,
    team: usize,
    challenge: Challenge,
    p: InternEngineResponsePackage,
) -> bool {
    &&& (s1 == (Session { teams: s1.teams, ..s0 }))
    &&& (team >= s0.teams@.len() ==> s1.teams == s0.teams && not_found(
                    p,
                    "team with id "@ + decimal(team as u64),
                ))
    &&& (team < s0.teams@.len() && s0.game is Some ==> s1.teams
                    == s0.teams && answers(p, ResponseAction::Error(Error::GameInProgress)))
    &&& (team < s0.teams@.len() && s0.game is None ==> answers(
                    p,
                    ResponseAction::Success,
                ) && {
                    let before = s0.teams@[team as int];
                    let after = s1.teams@[team as int];
                    let c = after.challenges@.last();
                    &&& s1.teams@ == s0.teams@.update(team as int, after)
                    &&& after == (TeamEntry { challenges: after.challenges, ..before })
                    &&& after.challenges@.drop_last() == before.challenges@
                    &&& after.challenges@.len() == before.challenges@.len() + 1
                    &&& c.title == challenge.title && c.description == challenge.description
                    &&& c.points == challenge.points && c.action is None && c.zone is None && c.id == 0
                })
}

/// A team was renamed: what the session `s0` becomes (`s1`) and answers (`p`).
pub open spec fn handles_rename_team(
    s0: Session,
    s1: Session,
    team: usize,
    new_name: String,
    p: InternEngineResponsePackage,
) -> bool {
    &&& (s1 == (Session { teams: s1.teams, ..s0 }))
    &&& (team >= s0.teams@.len() ==> s1.teams == s0.teams && not_found(
                    p,
                    "team with id "@ + decimal(team as u64),
                ))
    &&& (team < s0.teams@.len() ==> answers(p, ResponseAction::Success) && replaces_team(
                    s0.teams@,
                    s1.teams@,
                    team,
                    TeamEntry { name: new_name, ..s0.teams@[team as int] },
                ))
}

/// A team was made catchers: what the session `s0` becomes (`s1`) and answers (`p`).
pub open spec fn handles_make_team_catcher(
    s0: Session,
    s1: Session,
    id: usize,
    context: SessionContext,
    now: Moment,
    p: InternEngineResponsePackage,
) -> bool {
    &&& (s1 == (Session { teams: s1.teams, ..s0 }))
    &&& (id >= s0.teams@.len() ==> s1.teams == s0.teams && not_found(
                    p,
                    "team with id "@ + decimal(id as u64),
                ))
    &&& (id < s0.teams@.len() && s0.teams@[id as int].role == TeamRole::Catcher
                    ==> s1.teams == s0.teams && answers(p, ResponseAction::Success))
    &&& (id < s0.teams@.len() && s0.teams@[id as int].role == TeamRole::Runner
                    ==> replaces_team(
                    s0.teams@,
                    s1.teams@,
                    id,
                    TeamEntry { role: TeamRole::Catcher, ..s0.teams@[id as int] },
                ) && broadcasts_team(
                    p,
                    s1.teams@,
                    id,
                    *context.engine_context.player_db,
                    now,
                    TeamNews::MadeCatcher,
                ))
}

/// A team was made runners: what the session `s0` becomes (`s1`) and answers (`p`).
pub open spec fn handles_make_team_runner(
    s0: Session,
    s1: Session,
    id: usize,
    context: SessionContext,
    now: Moment,
    p: InternEngineResponsePackage,
) -> bool {
    &&& (s1 == (Session { teams: s1.teams, ..s0 }))
    &&& (id >= s0.teams@.len() ==> s1.teams == s0.teams && not_found(
                    p,
                    "team with id "@ + decimal(id as u64),
                ))
    &&& (id < s0.teams@.len() && s0.teams@[id as int].role == TeamRole::Runner
                    ==> s1.teams == s0.teams && answers(p, ResponseAction::Success))
    &&& (id < s0.teams@.len() && s0.teams@[id as int].role == TeamRole::Catcher
                    ==> replaces_team(
                    s0.teams@,
                    s1.teams@,
                    id,
                    TeamEntry { role: TeamRole::Runner, ..s0.teams@[id as int] },
                ) && broadcasts_team(
                    p,
                    s1.teams@,
                    id,
                    *context.engine_context.player_db,
                    now,
                    TeamNews::MadeRunner,
                ))
}

/// A player's location fix came in: what the session `s0` becomes (`s1`) and answers (`p`).
pub open spec fn handles_send_location(
    s0: Session,
    s1: Session,
    player: u64,
    location: DetailedLocation,
    p: InternEngineResponsePackage,
) -> bool {
    &&& (s1 == (Session { teams: s1.teams, ..s0 }))
    &&& (no_team_with(s0.teams@, player) ==> s1.teams == s0.teams
                    && not_found(p, "team with the player with id "@ + decimal(player)))
    &&& (forall|i: int|
                    first_team_with(s0.teams@, player, i) ==> {
                        let after = s1.teams@[i];
                        &&& s1.teams@ == s0.teams@.update(i, after)
                        &&& exists|r: Option<DetailedLocation>|
                            s0.teams@[i].takes_location(after, location, player, r) && match r {
                                Some(l) => succeeds_broadcasting(
                                    p,
                                    BroadcastAction::Location { team: i as usize, location: l },
                                ),
                                None => answers(p, ResponseAction::Success),
                            }
                    })
}

/// A player was moved to a team: what the session `s0` becomes (`s1`) and answers (`p`).
pub open spec fn handles_assign_player_to_team(
    s0: Session,
    s1: Session,
    player: u64,
    team: Option<usize>,
    session_id: u64,
    p: InternEngineResponsePackage,
) -> bool {
    &&& (s1 == (Session { teams: s1.teams, ..s0 }))
    &&& (({
                    let changed = succeeds_broadcasting(
                        p,
                        BroadcastAction::PlayerChangedTeam {
                            session: session_id,
                            player,
                            from_team: last_team_with(s0.teams@, player),
                            to_team: team,
                        },
                    );
                    match team {
                        None => player_removed(s0.teams@, s1.teams@, player) && changed,
                        Some(t) => if t >= s0.teams@.len() {
                            player_removed(s0.teams@, s1.teams@, player) && not_found(
                                p,
                                "team with id "@ + decimal(t as u64),
                            )
                        } else {
                            changed && moves_player(s0.teams@, s1.teams@, player, t as int)
                        },
                    }
                }))
}

/// A team caught another: what the session `s0` becomes (`s1`) and answers (`p`).
pub open spec fn handles_catch(
    s0: Session,
    s1: Session,
    catcher: usize,
    caught: usize,
    context: SessionContext,
    now: Moment,
    time: TimeOfDay,
    tb: TimerTracker,
    ta: TimerTracker,
    p: InternEngineResponsePackage,
) -> bool {
    &&& (s1 == (Session { teams: s1.teams, ..s0 }))
    &&& (({
                    let teams = s0.teams@;
                    let unchanged = s1.teams == s0.teams && ta == tb;
                    if s0.game is None {
                        unchanged && answers(p, ResponseAction::Error(Error::GameNotRunning))
                    } else if caught == catcher {
                        unchanged && bad_data(p, "a team cannot catch itself"@)
                    } else if catcher >= teams.len() {
                        unchanged && not_found(p, "catcher team with id "@ + decimal(catcher as u64))
                    } else if teams[catcher as int].role == TeamRole::Runner {
                        unchanged && answers(p, ResponseAction::Error(Error::TeamIsRunner(catcher)))
                    } else if caught >= teams.len() {
                        unchanged && not_found(p, "caught team with id "@ + decimal(caught as u64))
                    } else if teams[caught as int].role == TeamRole::Catcher {
                        unchanged && answers(p, ResponseAction::Error(Error::TeamIsCatcher(caught)))
                    } else {
                        ||| (teams[catcher as int].current_location is Some
                            && teams[caught as int].current_location is Some && unchanged && answers(
                            p,
                            ResponseAction::Error(Error::TeamsTooFar),
                        ))
                        ||| catch_done(
                            teams,
                            s1.teams@,
                            catcher,
                            caught,
                            context,
                            tb,
                            ta,
                            now,
                            time,
                            p,
                        )
                    }
                }))
}

/// `too_far` is what the environment may answer when asked whether the last known positions
/// of teams `caught` and `catcher` of `teams` are more than 300 metres apart; `false` where
/// either team or either position is missing.
pub open spec fn catch_verdict<E: GameEnv>(
    env: &E,
    teams: Seq<TeamEntry>,
    catcher: usize,
    caught: usize,
    too_far: bool,
) -> bool {
    if catcher < teams.len() && caught < teams.len() {
        match (teams[caught as int].current_location, teams[catcher as int].current_location) {
            (Some(a), Some(b)) => call_ensures(
                E::farther_than,
                (env, (a.latitude, a.longitude), (b.latitude, b.longitude), 300u32),
                too_far,
            ),
            _ => !too_far,
        }
    } else {
        !too_far
    }
}

/// `p` refuses a catch because the teams are too far apart.
pub open spec fn refuses_as_too_far(p: InternEngineResponsePackage) -> bool {
    p.response matches InternEngineResponse::DirectResponse(r) && r.response_action
        == ResponseAction::Error(Error::TeamsTooFar)
}

/// In a running game, a catcher team catching a runner team is refused as too far only where
/// both last positions are known and the environment may find them more than 300 metres
/// apart; in every other case, in particular where a position is missing, the catch is done.
pub proof fn law_catch_refused_only_when_far<E: GameEnv>(
    env: &E,
    s0: Session,
    s1: Session,
    catcher: usize,
    caught: usize,
    context: SessionContext,
    now: Moment,
    time: TimeOfDay,
    tb: TimerTracker,
    ta: TimerTracker,
    too_far: bool,
    p: InternEngineResponsePackage,
)
    requires
        s0.game is Some,
        catcher != caught,
        catcher < s0.teams@.len(),
        caught < s0.teams@.len(),
        s0.teams@[catcher as int].role == TeamRole::Catcher,
        s0.teams@[caught as int].role == TeamRole::Runner,
        catch_verdict(env, s0.teams@, catcher, caught, too_far),
        handles_catch_judged(s0, s1, catcher, caught, context, now, time, tb, ta, too_far, p),
    ensures
        refuses_as_too_far(p) ==> ({
            let a = s0.teams@[caught as int].current_location;
            let b = s0.teams@[catcher as int].current_location;
            &&& a is Some
            &&& b is Some
            &&& call_ensures(
                E::farther_than,
                (env, (a->0.latitude, a->0.longitude), (b->0.latitude, b->0.longitude), 300u32),
                true,
            )
        }),
        !refuses_as_too_far(p) ==> catch_done(s0.teams@, s1.teams@, catcher, caught, context, tb, ta, now, time, p),
        s0.teams@[caught as int].current_location is None || s0.teams@[catcher as int].current_location is None
            ==> catch_done(s0.teams@, s1.teams@, catcher, caught, context, tb, ta, now, time, p),
{
}

/// A team tried to catch another, `too_far` telling whether their last known positions are
/// more than 300 metres apart: what the session `s0` becomes (`s1`) and answers (`p`).
pub open spec fn handles_catch_judged(
    s0: Session,
    s1: Session,
    catcher: usize,
    caught: usize,
    context: SessionContext,
    now: Moment,
    time: TimeOfDay,
    tb: TimerTracker,
    ta: TimerTracker,
    too_far: bool,
    p: InternEngineResponsePackage,
) -> bool {
    &&& (s1 == (Session { teams: s1.teams, ..s0 }))
    &&& (({
                    let teams = s0.teams@;
                    let unchanged = s1.teams == s0.teams && ta == tb;
                    if s0.game is None {
                        unchanged && answers(p, ResponseAction::Error(Error::GameNotRunning))
                    } else if caught == catcher {
                        unchanged && bad_data(p, "a team cannot catch itself"@)
                    } else if catcher >= teams.len() {
                        unchanged && not_found(p, "catcher team with id "@ + decimal(catcher as u64))
                    } else if teams[catcher as int].role == TeamRole::Runner {
                        unchanged && answers(p, ResponseAction::Error(Error::TeamIsRunner(catcher)))
                    } else if caught >= teams.len() {
                        unchanged && not_found(p, "caught team with id "@ + decimal(caught as u64))
                    } else if teams[caught as int].role == TeamRole::Catcher {
                        unchanged && answers(p, ResponseAction::Error(Error::TeamIsCatcher(caught)))
                    } else {
                        if teams[catcher as int].current_location is Some
                            && teams[caught as int].current_location is Some && too_far {
                            unchanged && answers(p, ResponseAction::Error(Error::TeamsTooFar))
                        } else {
                            catch_done(
                            teams,
                            s1.teams@,
                            catcher,
                            caught,
                            context,
                            tb,
                            ta,
                            now,
                            time,
                            p,
                        )
                        }
                    }
                }))
}

/// A team completed a challenge: what the session `s0` becomes (`s1`) and answers (`p`).
pub open spec fn handles_complete(
    s0: Session,
    s1: Session,
    completer: usize,
    completed: usize,
    context: SessionContext,
    now: Moment,
    time: TimeOfDay,
    p: InternEngineResponsePackage,
) -> bool {
    &&& (s1 == (Session { teams: s1.teams, ..s0 }))
    &&& (({
                    let teams = s0.teams@;
                    if s0.game is None {
                        s1.teams == s0.teams && answers(
                            p,
                            ResponseAction::Error(Error::GameNotRunning),
                        )
                    } else if completer >= teams.len() {
                        s1.teams == s0.teams && not_found(
                            p,
                            "completer team with id "@ + decimal(completer as u64),
                        )
                    } else if completed >= teams[completer as int].challenges@.len() {
                        s1.teams@ == s0.teams@ && not_found(
                            p,
                            "challenge with id/index "@ + decimal(completed as u64),
                        )
                    } else {
                        completion_done(teams, s1.teams@, completer, completed, context, now, time, p)
                    }
                }))
}

/// The events were asked for: what the session `s0` becomes (`s1`) and answers (`p`).
pub open spec fn handles_get_events(
    s0: Session,
    p: InternEngineResponsePackage,
) -> bool {
    &&& (exists|order: Seq<int>| #[trigger] sends_events(p, s0.teams@, order))
}

/// The state was asked for: what the session `s0` becomes (`s1`) and answers (`p`).
pub open spec fn handles_get_state(
    s0: Session,
    context: SessionContext,
    now: Moment,
    p: InternEngineResponsePackage,
) -> bool {
    &&& (p.runtime_requests is None)
    &&& (exists|order: Seq<int>| #[trigger] sends_state(p, s0, *context.engine_context.player_db, now, order))
}

/// The team named `name` was added to `s0`, giving `s1`, and success answered (`p`): it comes
/// last, a runner without points, players, challenges or history, in the configured start zone,
/// with the colour asked for or else the first free one.
pub open spec fn team_added(
    s0: Session,
    s1: Session,
    name: String,
    discord_channel: Option<u64>,
    colour: Option<Colour>,
    p: InternEngineResponsePackage,
) -> bool {
    let t = s1.teams@.last();
    &&& answers(p, ResponseAction::Success)
    &&& s1.teams@.len() == s0.teams@.len() + 1
    &&& s1.teams@.drop_last() == s0.teams@
    &&& exists|c: Config|
        #![auto]
        is_effective(s0.config, c) && t.name == name && t.players@ == Seq::<u64>::empty()
            && t.discord_channel == discord_channel && t.colour == colour_for(colour, c.team_colours@, s0.teams@)
            && t.role == TeamRole::Runner && t.points == 0 && t.bounty == 0
            && t.current_zone_id == c.start_zone && t.picture is None && t.current_location is None
            && t.locations@.len() == 0 && t.challenges@.len() == 0 && t.periods@.len() == 0
            && t.grace_period_end is None && t.location_sending_player is None
            && t.player_location_counts@ == Map::<u64, crate::team::LocationCounts>::empty()
}

/// A team was added: what the session `s0` becomes (`s1`) and answers (`p`).
pub open spec fn handles_add_team(
    s0: Session,
    s1: Session,
    name: String,
    discord_channel: Option<u64>,
    colour: Option<Colour>,
    p: InternEngineResponsePackage,
) -> bool {
    &&& (s1 == (Session { teams: s1.teams, ..s0 }))
    &&& (({
                    ||| s1.teams == s0.teams && exists|i: int|
                        0 <= i < s0.teams@.len() && refuses_existing(p, #[trigger] s0.teams@[i].name@)
                    ||| team_added(s0, s1, name, discord_channel, colour, p)
                }))
}

/// A team was to be added, the first team whose name is too similar to `name` being `similar`:
/// what the session `s0` becomes (`s1`) and answers (`p`).
pub open spec fn handles_add_team_judged(
    s0: Session,
    s1: Session,
    name: String,
    discord_channel: Option<u64>,
    colour: Option<Colour>,
    similar: Option<usize>,
    p: InternEngineResponsePackage,
) -> bool {
    &&& (s1 == (Session { teams: s1.teams, ..s0 }))
    &&& match similar {
        Some(i) => s1.teams == s0.teams && refuses_existing(p, s0.teams@[i as int].name@),
        None => team_added(s0, s1, name, discord_channel, colour, p),
    }
}

/// A game was started: what the session `s0` becomes (`s1`) and answers (`p`).
pub open spec fn handles_start(
    s0: Session,
    s1: Session,
    context: SessionContext,
    tb: TimerTracker,
    ta: TimerTracker,
    p: InternEngineResponsePackage,
) -> bool {
    &&& (s1 == (Session { teams: s1.teams, game: s1.game, ..s0 }))
    &&& (({
                    let n = context.config.num_catchers as usize;
                    let len = s0.teams@.len();
                    let unchanged = s1.teams == s0.teams && s1.game == s0.game
                        && ta == tb;
                    if s0.game is Some {
                        unchanged && answers(p, ResponseAction::Error(Error::GameInProgress))
                    } else if n >= len {
                        unchanged && bad_data(
                            p,
                            "cannot start game with "@ + decimal(n as u64) + " catchers when there are only "@
                                + decimal(len as u64) + " teams"@,
                        )
                    } else if !has_zone_number(*context.engine_context.zone_db, context.config.start_zone) {
                        unchanged && not_found(p, "config start zone"@)
                    } else if !is_time_of_day(context.config.end_time) {
                        unchanged && answers(p, ResponseAction::Error(Error::InternalError))
                    } else {
                        ||| call_ensures(end_time_today, (&context.config,), None::<Moment>) && unchanged
                            && answers(p, ResponseAction::Error(Error::InternalError))
                        ||| game_started(s0, s1, context, tb, ta, p) && (s1.game matches Some(g)
                            && call_ensures(end_time_today, (&context.config,), Some(g.timer.end_time)))
                    }
                }))
}

/// A game started while none ran, with fewer catchers than teams and its start zone stored,
/// ends by an alarm at a moment that the clock may give for today at the configured end time;
/// where none starts, an internal error is answered, and only where the end time is no time
/// of day or the clock may give no such moment today.
pub proof fn law_game_ends_at_configured_time(
    s0: Session,
    s1: Session,
    context: SessionContext,
    tb: TimerTracker,
    ta: TimerTracker,
    p: InternEngineResponsePackage,
)
    requires
        handles_start(s0, s1, context, tb, ta, p),
        s0.game is None,
        (context.config.num_catchers as usize) < s0.teams@.len(),
        has_zone_number(*context.engine_context.zone_db, context.config.start_zone),
    ensures
        s1.game matches Some(g) ==> {
            &&& call_ensures(end_time_today, (&context.config,), Some(g.timer.end_time))
            &&& p.runtime_requests matches Some(v) && v@.len() == 1 && (v@[0] matches RuntimeRequest::CreateAlarm {
                time,
                ..
            } && time == g.timer.end_time)
        },
        s1.game is None ==> answers(p, ResponseAction::Error(Error::InternalError)) && (!is_time_of_day(
            context.config.end_time,
        ) || call_ensures(end_time_today, (&context.config,), None::<Moment>)),
{
}

/// The game was stopped: what the session `s0` becomes (`s1`) and answers (`p`).
pub open spec fn handles_stop(
    s0: Session,
    s1: Session,
    context: SessionContext,
    rb: EngineRecords,
    ra: EngineRecords,
    p: InternEngineResponsePackage,
) -> bool {
    &&& (s1 == (Session { teams: s1.teams, game: s1.game, ..s0 }))
    &&& (ra.picture_db == rb.picture_db)
    &&& (ra.timer_tracker == rb.timer_tracker)
    &&& (match s0.game {
                    None => s1.teams == s0.teams && s1.game is None
                        && ra == rb && answers(
                        p,
                        ResponseAction::Error(Error::GameNotRunning),
                    ),
                    Some(g) => {
                        &&& s1.game is None
                        &&& s1.teams@.len() == s0.teams@.len()
                        &&& forall|i: int|
                            0 <= i < s0.teams@.len() ==> #[trigger] s0.teams@[i].reset_as(
                                s1.teams@[i],
                                context,
                            )
                        &&& rb.past_game_db@.len() < usize::MAX ==> exists|id: int, past: PastGame|
                            #[trigger] added(rb.past_game_db@, ra.past_game_db@, id, past)
                                && #[trigger] keeps_game(past, g, s0.teams@)
                        &&& p.response == InternEngineResponse::DirectResponse(
                            crate::commands::EngineResponse {
                                response_action: ResponseAction::Success,
                                broadcast_action: Some(BroadcastAction::Ended),
                            },
                        )
                        &&& p.runtime_requests matches Some(v)
                        &&& v@ == seq![RuntimeRequest::CancelTimer(g.timer.id)] + grace_cancels(s0.teams@)
                    },
                })
}

/// A team's profile picture came in: what the session `s0` becomes (`s1`) and answers (`p`).
pub open spec fn handles_upload_team_picture(
    s0: Session,
    team_id: usize,
    picture: RawPicture,
    session_id: u64,
    p: InternEngineResponsePackage,
) -> bool {
    &&& (team_id >= s0.teams@.len() ==> not_found(p, "team with id "@ + decimal(team_id as u64)))
    &&& (team_id < s0.teams@.len() ==> p == (InternEngineResponsePackage {
                    response: InternEngineResponse::DelayedLoopback(
                        OutsideWork::MakeTeamProfile { session_id, team_id, picture },
                    ),
                    runtime_requests: None,
                }))
}

/// A team's converted profile picture came in: what the session `s0` becomes (`s1`) and answers (`p`).
pub open spec fn handles_set_team_picture(
    s0: Session,
    s1: Session,
    team_id: usize,
    profile: Option<PictureEntry>,
    rb: EngineRecords,
    ra: EngineRecords,
    p: InternEngineResponsePackage,
) -> bool {
    &&& (s1 == (Session { teams: s1.teams, ..s0 }))
    &&& (ra.past_game_db == rb.past_game_db)
    &&& (ra.timer_tracker == rb.timer_tracker)
    &&& (team_id >= s0.teams@.len() ==> s1.teams == s0.teams
                    && ra == rb && not_found(p, "team with id "@ + decimal(team_id as u64)))
    &&& (team_id < s0.teams@.len() ==> match profile {
                    None => s1.teams == s0.teams && ra == rb
                        && answers(p, ResponseAction::Error(Error::PictureProblem)),
                    Some(e) => {
                        ||| rb.picture_db@.len() >= usize::MAX && s1.teams == s0.teams
                            && ra == rb && answers(p, ResponseAction::Error(Error::InternalError))
                        ||| exists|id: u64|
                            #[trigger] added(rb.picture_db@, ra.picture_db@, id as int, e)
                                && replaces_team(
                                s0.teams@,
                                s1.teams@,
                                team_id,
                                TeamEntry { picture: Some(id), ..s0.teams@[team_id as int] },
                            ) && answers(p, ResponseAction::Success)
                    },
                })
}

/// Pictures of a period came in: what the session `s0` becomes (`s1`) and answers (`p`).
pub open spec fn handles_upload_period_pictures(
    s0: Session,
    s1: Session,
    team_id: usize,
    period_id: usize,
    pictures: Seq<RawPicture>,
    rb: EngineRecords,
    ra: EngineRecords,
    p: InternEngineResponsePackage,
) -> bool {
    &&& (s1 == (Session { teams: s1.teams, ..s0 }))
    &&& (ra.past_game_db == rb.past_game_db)
    &&& (ra.timer_tracker == rb.timer_tracker)
    &&& (team_id >= s0.teams@.len() ==> s1.teams == s0.teams
                    && ra == rb && not_found(p, "team with id "@ + decimal(team_id as u64)))
    &&& (team_id < s0.teams@.len() && period_id >= s0.teams@[team_id as int].periods@.len()
                    ==> s1.teams == s0.teams && ra == rb && not_found(
                    p,
                    "period with index "@ + decimal(period_id as u64) + " in team "@ + s0.teams@[team_id as int].name@,
                ))
    &&& (team_id < s0.teams@.len() && period_id < s0.teams@[team_id as int].periods@.len()
                    ==> {
                    ||| s1.teams == s0.teams && ra == rb && answers(
                        p,
                        ResponseAction::Error(Error::InternalError),
                    )
                    ||| answers(p, ResponseAction::Success) && pictures_stored(
                        s0.teams@,
                        s1.teams@,
                        team_id,
                        period_id,
                        pictures,
                        rb.picture_db@,
                        ra.picture_db@,
                    )
                })
}

/// The tracks were asked for: what the session `s0` becomes (`s1`) and answers (`p`).
pub open spec fn handles_send_locations(
    s0: Session,
    context: SessionContext,
    now: Moment,
    p: InternEngineResponsePackage,
) -> bool {
    &&& (p.runtime_requests is None)
    &&& (({
                    &&& p.response matches InternEngineResponse::DirectResponse(r)
                    &&& r.broadcast_action is None
                    &&& r.response_action matches ResponseAction::SendLocations(v)
                    &&& v@.len() == s0.teams@.len()
                    &&& forall|i: int|
                        0 <= i < s0.teams@.len() ==> s0.teams@[i].shows_as(
                            i as usize,
                            *context.engine_context.player_db,
                            now,
                            (#[trigger] v@[i]).0,
                        ) && v@[i].1@ == s0.teams@[i].locations@
                }))
}

/// A team's recent track was asked for: what the session `s0` becomes (`s1`) and answers (`p`).
pub open spec fn handles_send_past_locations(
    s0: Session,
    team_id: usize,
    of_past_seconds: Option<u32>,
    now: Moment,
    p: InternEngineResponsePackage,
) -> bool {
    &&& (team_id >= s0.teams@.len() ==> not_found(p, "team with id "@ + decimal(team_id as u64)))
    &&& (team_id < s0.teams@.len() ==> {
                    &&& p.runtime_requests is None
                    &&& p.response matches InternEngineResponse::DirectResponse(r)
                    &&& r.broadcast_action is None
                    &&& r.response_action matches ResponseAction::SendPastLocations { team_id: t, locations }
                    &&& t == team_id
                    &&& locations@ == match of_past_seconds {
                        None => s0.teams@[team_id as int].locations@,
                        Some(s) => track_since(s0.teams@[team_id as int].locations@, seconds_ago(now, s)),
                    }
                })
}


/// What session `s0` with id `session_id` becomes (`s1`) and answers (`p`) for `command`,
/// handled in the context `c` at `now` (`time` of day), with the engine's records going from
/// `rb` to `ra`. Global commands are refused with `SessionSupplied`.
pub open spec fn session_handles(
    s0: Session,
    s1: Session,
    command: EngineAction,
    session_id: u64,
    context: EngineContext,
    c: SessionContext,
    now: Moment,
    time: TimeOfDay,
    rb: EngineRecords,
    ra: EngineRecords,
    p: InternEngineResponsePackage,
) -> bool {
    let same = s1 == s0 && ra == rb;
    let timers_only = ra == (EngineRecords { timer_tracker: ra.timer_tracker, ..rb });
    match command {
        EngineAction::GetLocations => same && handles_send_locations(s0, c, now, p),
        EngineAction::GetPastLocations { team_id, of_past_seconds } => same
            && handles_send_past_locations(s0, team_id, of_past_seconds, now, p),
        EngineAction::UploadPeriodPictures { pictures, team, period } => handles_upload_period_pictures(
            s0,
            s1,
            team,
            period,
            pictures@,
            rb,
            ra,
            p,
        ),
        EngineAction::UploadTeamPicture { team_id, picture } => same && handles_upload_team_picture(
            s0,
            team_id,
            picture,
            session_id,
            p,
        ),
        EngineAction::GetEvents => same && handles_get_events(s0, p),
        EngineAction::GenerateTeamChallenges(id) => ra == rb && handles_generate_team_challenges(
            s0,
            s1,
            id,
            c,
            p,
        ),
        EngineAction::AddChallengeToTeam { team, challenge } => ra == rb
            && handles_add_challenge_to_team(s0, s1, team, challenge, p),
        EngineAction::RenameTeam { team, new_name } => ra == rb && handles_rename_team(
            s0,
            s1,
            team,
            new_name,
            p,
        ),
        EngineAction::MakeTeamCatcher(id) => ra == rb && handles_make_team_catcher(s0, s1, id, c, now, p),
        EngineAction::MakeTeamRunner(id) => ra == rb && handles_make_team_runner(s0, s1, id, c, now, p),
        EngineAction::SendLocation { player, location } => ra == rb && handles_send_location(
            s0,
            s1,
            player,
            location,
            p,
        ),
        EngineAction::AssignPlayerToTeam { player, team } => ra == rb && handles_assign_player_to_team(
            s0,
            s1,
            player,
            team,
            session_id,
            p,
        ),
        EngineAction::Catch { catcher, caught, .. } => timers_only && handles_catch(
            s0,
            s1,
            catcher,
            caught,
            c,
            now,
            time,
            rb.timer_tracker,
            ra.timer_tracker,
            p,
        ),
        EngineAction::Complete { completer, completed, .. } => ra == rb && handles_complete(
            s0,
            s1,
            completer,
            completed,
            c,
            now,
            time,
            p,
        ),
        EngineAction::GetState => same && handles_get_state(s0, c, now, p),
        EngineAction::AddTeam { name, discord_channel, colour } => ra == rb && handles_add_team(
            s0,
            s1,
            name,
            discord_channel,
            colour,
            p,
        ),
        EngineAction::Start => timers_only && handles_start(
            s0,
            s1,
            c,
            rb.timer_tracker,
            ra.timer_tracker,
            p,
        ),
        EngineAction::Stop => handles_stop(s0, s1, c, rb, ra, p),
        EngineAction::GetGameConfig => same && p.runtime_requests is None && {
            &&& p.response matches InternEngineResponse::DirectResponse(r)
            &&& r.broadcast_action is None
            &&& r.response_action matches ResponseAction::SendGameConfig(g)
            &&& g.num_catchers == c.config.num_catchers
            &&& g.start_zone == c.config.start_zone
            &&& g.start_time == c.config.start_time
            &&& g.end_time == c.config.end_time
            &&& g.challenge_sets@ == c.config.challenge_sets@
        },
        EngineAction::SetGameConfig(v) => ra == rb && answers(p, ResponseAction::Success) && s1 == (
        Session { config: s1.config, ..s0 }) && s1.config == (PartialConfig {
            num_catchers: match v.num_catchers {
                Some(x) => Some(x),
                None => s0.config.num_catchers,
            },
            start_zone: match v.start_zone {
                Some(x) => Some(x),
                None => s0.config.start_zone,
            },
            start_time: match v.start_time {
                Some(x) => Some(x),
                None => s0.config.start_time,
            },
            end_time: match v.end_time {
                Some(x) => Some(x),
                None => s0.config.end_time,
            },
            challenge_sets: match v.challenge_sets {
                Some(x) => Some(x),
                None => s0.config.challenge_sets,
            },
            ..s0.config
        }),
        _ => same && answers(p, ResponseAction::Error(Error::SessionSupplied)),
    }
}


/// Law: a started game has exactly the configured number of catchers: the teams that are
/// catchers after the start are as many as `num_catchers`.
pub proof fn law_start_makes_catchers(
    before: Seq<TeamEntry>,
    after: Seq<TeamEntry>,
    cs: Seq<usize>,
    context: SessionContext,
)
    requires
        before.len() <= usize::MAX,
        picks_catchers(cs, context.config.num_catchers as usize as int, before.len() as int),
        teams_started(before, after, cs, context),
    ensures
        Set::new(|i: int| 0 <= i < after.len() && after[i].role == TeamRole::Catcher).len()
            == context.config.num_catchers as usize,
{
    let catchers = Set::new(|i: int| 0 <= i < after.len() && after[i].role == TeamRole::Catcher);
    let ids = cs.map_values(|c: usize| c as int);
    assert(ids.no_duplicates()) by {
        assert forall|k: int, l: int| 0 <= k < ids.len() && 0 <= l < ids.len() && k != l implies ids[k] != ids[l] by {
            if k < l {
                assert(cs[k] != cs[l]);
            } else {
                assert(cs[l] != cs[k]);
            }
        }
    }
    ids.unique_seq_to_set();
    assert forall|i: int| catchers.contains(i) <==> ids.to_set().contains(i) by {
        if 0 <= i < after.len() {
            if cs.contains(i as usize) {
                assert(before[i].started_as_catcher(after[i], context));
                let k = choose|k: int| 0 <= k < cs.len() && cs[k] == i as usize;
                assert(ids[k] == i);
            } else {
                assert(before[i].started_as_runner(after[i], context));
            }
        }
        if ids.to_set().contains(i) {
            let k = choose|k: int| 0 <= k < ids.len() && ids[k] == i;
            assert(cs.contains(cs[k]));
            assert(before[i].started_as_catcher(after[i], context));
        }
    }
    assert(catchers =~= ids.to_set());
}

/// Law: the game configuration a session answers after it was set holds each value that was set,
/// and the value it had before where none was set.
pub proof fn law_game_config_round_trip(
    s0: Session,
    s1: Session,
    s2: Session,
    v: PartialGameConfig,
    session_id: u64,
    e0: EngineContext,
    e1: EngineContext,
    c0: SessionContext,
    c1: SessionContext,
    now0: Moment,
    now1: Moment,
    time0: TimeOfDay,
    time1: TimeOfDay,
    r0: EngineRecords,
    r1: EngineRecords,
    r2: EngineRecords,
    r3: EngineRecords,
    p0: InternEngineResponsePackage,
    p1: InternEngineResponsePackage,
)
    requires
        is_session_context(s0, e0, session_id, c0),
        session_handles(s0, s1, EngineAction::SetGameConfig(v), session_id, e0, c0, now0, time0, r0, r1, p0),
        is_session_context(s1, e1, session_id, c1),
        session_handles(s1, s2, EngineAction::GetGameConfig, session_id, e1, c1, now1, time1, r2, r3, p1),
    ensures
        answers(p0, ResponseAction::Success),
        p1.response matches InternEngineResponse::DirectResponse(r) && r.response_action matches ResponseAction::SendGameConfig(g) && {
            &&& g.num_catchers == match v.num_catchers {
                Some(x) => x,
                None => c0.config.num_catchers,
            }
            &&& g.start_zone == match v.start_zone {
                Some(x) => x,
                None => c0.config.start_zone,
            }
            &&& g.start_time == match v.start_time {
                Some(x) => x,
                None => c0.config.start_time,
            }
            &&& g.end_time == match v.end_time {
                Some(x) => x,
                None => c0.config.end_time,
            }
            &&& g.challenge_sets@ == match v.challenge_sets {
                Some(x) => x@,
                None => c0.config.challenge_sets@,
            }
        },
{
}

/// The indices of the teams that are catchers.
pub open spec fn catcher_set(teams: Seq<TeamEntry>) -> Set<int> {
    Set::new(|i: int| 0 <= i < teams.len() && teams[i].role == TeamRole::Catcher)
}

/// Law: a catch swaps roles: the catching team runs and the caught team catches, so a game keeps
/// as many catchers as it had.
pub proof fn law_catch_swaps_roles(
    before: Seq<TeamEntry>,
    after: Seq<TeamEntry>,
    catcher: usize,
    caught: usize,
    context: SessionContext,
    tb: TimerTracker,
    ta: TimerTracker,
    now: Moment,
    time: TimeOfDay,
    p: InternEngineResponsePackage,
)
    requires
        catcher < before.len(),
        caught < before.len(),
        catcher != caught,
        before[catcher as int].role == TeamRole::Catcher,
        before[caught as int].role == TeamRole::Runner,
        catch_done(before, after, catcher, caught, context, tb, ta, now, time, p),
    ensures
        after[catcher as int].role == TeamRole::Runner,
        after[caught as int].role == TeamRole::Catcher,
        catcher_set(after).len() == catcher_set(before).len(),
{
    let c0 = catcher_set(before);
    let c1 = catcher_set(after);
    vstd::set_lib::lemma_int_range(0, before.len() as int);
    assert(c0.subset_of(vstd::set_lib::set_int_range(0, before.len() as int)));
    vstd::set_lib::lemma_len_subset(c0, vstd::set_lib::set_int_range(0, before.len() as int));
    assert(c1 =~= c0.remove(catcher as int).insert(caught as int));
}

impl Session {
    /// The configuration of the session: its overrides applied to the recommended values.
    pub fn config(&self) -> (c: Config)
        ensures
            is_effective(self.config, c),
    {
        self.config.effective()
    }

    /// A new session without teams, overrides or game.
    pub fn new(name: String, mode: Mode) -> (s: Session)
        ensures
            s.name == name,
            s.mode == mode,
            s.teams@ == Seq::<TeamEntry>::empty(),
            s.config.overrides_nothing(),
            s.discord_server_id is None,
            s.discord_game_channel is None,
            s.discord_admin_channel is None,
            s.game is None,
    {
        Session {
            name,
            mode,
            teams: Vec::new(),
            config: PartialConfig::none(),
            discord_server_id: None,
            discord_game_channel: None,
            discord_admin_channel: None,
            game: None,
        }
    }

    /// The session as clients see it, under id `id`.
    pub fn to_sendable(&self, id: u64) -> (g: GameSession)
        ensures
            g.name@ == self.name@,
            g.mode == self.mode,
            g.id == id,
    {
        GameSession { name: self.name.clone(), mode: self.mode, id }
    }

    /// The highest points of the session's teams.
    fn top_team_points(&self) -> (r: Option<u64>)
        ensures
            r == top_points(self.teams@),
    {
        let mut top: Option<u64> = None;
        let mut i: usize = 0;
        while i < self.teams.len()
            invariant
                i <= self.teams@.len(),
                top == top_points(self.teams@.take(i as int)),
            decreases self.teams@.len() - i,
        {
            proof {
                assert(self.teams@.take(i + 1).drop_last() =~= self.teams@.take(i as int));
            }
            let p = self.teams[i].points;
            top = match top {
                None => Some(p),
                Some(q) => Some(if p > q { p } else { q }),
            };
            i = i + 1;
        }
        assert(self.teams@.take(self.teams@.len() as int) =~= self.teams@);
        top
    }

    /// The context in which the session with id `session_id` handles a command.
    fn context<'a>(&self, context: EngineContext<'a>, session_id: u64) -> (c: SessionContext<'a>)
        ensures
            is_session_context(*self, context, session_id, c),
    {
        SessionContext {
            engine_context: context,
            config: self.config(),
            top_team_points: self.top_team_points(),
            session_id,
        }
    }

    /// The grace period of team `team_id` ended at `now`: it is marked as over and the team is
    /// broadcast. Where there is no such team, nothing happens.
    pub fn team_left_grace_period(
        &mut self,
        team_id: usize,
        session_id: u64,
        context: EngineContext,
        now: Moment,
    ) -> (p: InternEngineResponsePackage)
        ensures
            handles_team_left_grace_period(
                *old(self),
                *final(self),
                team_id,
                session_id,
                context,
                now,
                p,
            ),
    {
        let context = self.context(context, session_id);
        if team_id >= self.teams.len() {
            return InternEngineResponsePackage::action(ResponseAction::Success);
        }
        let team = &mut self.teams[team_id];
        team.grace_period_end = None;
        let t = team.to_sendable(team_id, &context, now);
        InternEngineResponsePackage {
            response: InternEngineResponse::DirectResponse(
                crate::commands::EngineResponse {
                    response_action: ResponseAction::Success,
                    broadcast_action: Some(BroadcastAction::TeamLeftGracePeriod(t)),
                },
            ),
            runtime_requests: None,
        }
    }

    /// Generates new challenges for team `id` (see `TeamEntry::generate_challenges`).
    fn generate_team_challenges<E: GameEnv>(
        &mut self,
        id: usize,
        context: &SessionContext,
        env: &E,
    ) -> (p: InternEngineResponsePackage)
        ensures
            handles_generate_team_challenges(
                *old(self),
                *final(self),
                id,
                *context,
                p,
            ),
    {
        if id >= self.teams.len() {
            return not_found_numbered("team with id ", id as u64);
        }
        self.teams[id].generate_challenges(context, env);
        InternEngineResponsePackage::action(ResponseAction::Success)
    }

    /// Adds `challenge` to the challenges of team `team`, with no action, zone or id, while no
    /// game runs (`GameInProgress` otherwise).
    fn add_challenge_to_team(&mut self, team: usize, challenge: Challenge) -> (p:
        InternEngineResponsePackage)
        ensures
            handles_add_challenge_to_team(
                *old(self),
                *final(self),
                team,
                challenge,
                p,
            ),
    {
        if team >= self.teams.len() {
            return not_found_numbered("team with id ", team as u64);
        }
        if self.game.is_some() {
            return InternEngineResponsePackage::action(ResponseAction::Error(Error::GameInProgress));
        }
        let t = &mut self.teams[team];
        let ghost before = t.challenges@;
        t.challenges.push(
            InOpenChallenge {
                title: challenge.title,
                description: challenge.description,
                points: challenge.points,
                action: None,
                zone: None,
                id: 0,
            },
        );
        assert(t.challenges@.drop_last() =~= before);
        InternEngineResponsePackage::action(ResponseAction::Success)
    }

    /// Renames team `team` to `new_name`.
    fn rename_team(&mut self, team: usize, new_name: String) -> (p: InternEngineResponsePackage)
        ensures
            handles_rename_team(
                *old(self),
                *final(self),
                team,
                new_name,
                p,
            ),
    {
        if team >= self.teams.len() {
            return not_found_numbered("team with id ", team as u64);
        }
        self.teams[team].name = new_name;
        InternEngineResponsePackage::action(ResponseAction::Success)
    }

    /// Makes team `id` catchers and broadcasts it, seen at `now`; nothing happens to a team of
    /// catchers.
    fn make_team_catcher(&mut self, id: usize, context: &SessionContext, now: Moment) -> (p:
        InternEngineResponsePackage)
        ensures
            handles_make_team_catcher(
                *old(self),
                *final(self),
                id,
                *context,
                now,
                p,
            ),
    {
        if id >= self.teams.len() {
            return not_found_numbered("team with id ", id as u64);
        }
        match self.teams[id].role {
            TeamRole::Catcher => InternEngineResponsePackage::action(ResponseAction::Success),
            TeamRole::Runner => {
                let team = &mut self.teams[id];
                team.role = TeamRole::Catcher;
                let t = team.to_sendable(id, context, now);
                InternEngineResponsePackage {
                    response: InternEngineResponse::DirectResponse(
                        crate::commands::EngineResponse {
                            response_action: ResponseAction::Success,
                            broadcast_action: Some(BroadcastAction::TeamMadeCatcher(t)),
                        },
                    ),
                    runtime_requests: None,
                }
            },
        }
    }

    /// Makes team `id` runners and broadcasts it, seen at `now`; nothing happens to a team of
    /// runners.
    fn make_team_runner(&mut self, id: usize, context: &SessionContext, now: Moment) -> (p:
        InternEngineResponsePackage)
        ensures
            handles_make_team_runner(
                *old(self),
                *final(self),
                id,
                *context,
                now,
                p,
            ),
    {
        if id >= self.teams.len() {
            return not_found_numbered("team with id ", id as u64);
        }
        match self.teams[id].role {
            TeamRole::Runner => InternEngineResponsePackage::action(ResponseAction::Success),
            TeamRole::Catcher => {
                let team = &mut self.teams[id];
                team.role = TeamRole::Runner;
                let t = team.to_sendable(id, context, now);
                InternEngineResponsePackage {
                    response: InternEngineResponse::DirectResponse(
                        crate::commands::EngineResponse {
                            response_action: ResponseAction::Success,
                            broadcast_action: Some(BroadcastAction::TeamMadeRunner(t)),
                        },
                    ),
                    runtime_requests: None,
                }
            },
        }
    }

    /// A location fix from `player`: handed to the first team with that player (see
    /// `TeamEntry::add_location`), and broadcast where the team takes it.
    fn send_location<E: GameEnv>(&mut self, player: u64, location: DetailedLocation, env: &E) -> (p:
        InternEngineResponsePackage)
        ensures
            handles_send_location(
                *old(self),
                *final(self),
                player,
                location,
                p,
            ),
    {
        let mut i: usize = 0;
        while i < self.teams.len()
            invariant
                *self == *old(self),
                i <= self.teams@.len(),
                forall|j: int| 0 <= j < i ==> !#[trigger] self.teams@[j].players@.contains(player),
            decreases self.teams@.len() - i,
        {
            let mut k: usize = 0;
            let mut found = false;
            while k < self.teams[i].players.len()
                invariant
                    *self == *old(self),
                    i < self.teams@.len(),
                    k <= self.teams@[i as int].players@.len(),
                    !found ==> forall|l: int| 0 <= l < k ==> self.teams@[i as int].players@[l] != player,
                    found ==> self.teams@[i as int].players@.contains(player),
                decreases self.teams@[i as int].players@.len() - k,
            {
                if self.teams[i].players[k] == player {
                    found = true;
                }
                k = k + 1;
            }
            if found {
                let r = self.teams[i].add_location(location, player, env);
                return match r {
                    Some(l) => InternEngineResponsePackage {
                        response: InternEngineResponse::DirectResponse(
                            crate::commands::EngineResponse {
                                response_action: ResponseAction::Success,
                                broadcast_action: Some(BroadcastAction::Location { team: i, location: l }),
                            },
                        ),
                        runtime_requests: None,
                    },
                    None => InternEngineResponsePackage::action(ResponseAction::Success),
                };
            }
            i = i + 1;
        }
        not_found_numbered("team with the player with id ", player)
    }

    /// Moves `player` to team `team` (or out of every team for `None`): the first occurrence of
    /// the player is removed from every team, then the player is added to the end of `team`, and
    /// the change is broadcast with the last team that had the player. Where `team` is no team,
    /// `NotFound` is answered, and the player stays removed.
    fn assign_player_to_team(&mut self, player: u64, team: Option<usize>, session_id: u64) -> (p:
        InternEngineResponsePackage)
        ensures
            handles_assign_player_to_team(
                *old(self),
                *final(self),
                player,
                team,
                session_id,
                p,
            ),
    {
        let mut old_team: Option<usize> = None;
        let ghost before = self.teams@;
        let mut i: usize = 0;
        while i < self.teams.len()
            invariant
                *self == (Session { teams: self.teams, ..*old(self) }),
                before == old(self).teams@,
                i <= self.teams@.len(),
                self.teams@.len() == before.len(),
                forall|j: int| 0 <= j < i ==> #[trigger] self.teams@[j] == (TeamEntry { players: self.teams@[j].players, ..before[j] }),
                forall|j: int| 0 <= j < i ==> #[trigger] self.teams@[j].players@ == remove_first(before[j].players@, player),
                forall|j: int| i <= j < before.len() ==> #[trigger] self.teams@[j] == before[j],
                old_team == last_team_with(before.take(i as int), player),
            decreases self.teams@.len() - i,
        {
            proof {
                assert(before.take(i + 1).drop_last() =~= before.take(i as int));
            }
            let mut k: usize = 0;
            while k < self.teams[i].players.len() && self.teams[i].players[k] != player
                invariant
                    *self == (Session { teams: self.teams, ..*old(self) }),
                    before == old(self).teams@,
                    self.teams@.len() == before.len(),
                    forall|j: int| 0 <= j < i ==> #[trigger] self.teams@[j] == (TeamEntry { players: self.teams@[j].players, ..before[j] }),
                    forall|j: int| 0 <= j < i ==> #[trigger] self.teams@[j].players@ == remove_first(before[j].players@, player),
                    forall|j: int| i <= j < before.len() ==> #[trigger] self.teams@[j] == before[j],
                    i < self.teams@.len(),
                    k <= self.teams@[i as int].players@.len(),
                    forall|l: int| 0 <= l < k ==> self.teams@[i as int].players@[l] != player,
                decreases self.teams@[i as int].players@.len() - k,
            {
                k = k + 1;
            }
            if k < self.teams[i].players.len() {
                proof {
                    lemma_remove_first(before[i as int].players@, player, k as int);
                }
                let t = &mut self.teams[i];
                t.players.remove(k);
                old_team = Some(i);
                assert(before.take(i + 1).last().players@.contains(player)) by {
                    assert(before.take(i + 1).last() == before[i as int]);
                    assert(before[i as int].players@[k as int] == player);
                }
            } else {
                proof {
                    assert(!before[i as int].players@.contains(player)) by {
                        if before[i as int].players@.contains(player) {
                            let l = choose|l: int| 0 <= l < before[i as int].players@.len() && before[i as int].players@[l] == player;
                            assert(self.teams@[i as int].players@[l] != player);
                        }
                    }
                    lemma_remove_absent(before[i as int].players@, player);
                    assert(before.take(i + 1).last() == before[i as int]);
                }
            }
            i = i + 1;
        }
        assert(before.take(before.len() as int) =~= before);
        match team {
            Some(t) => {
                if t < self.teams.len() {
                    self.teams[t].players.push(player);
                    InternEngineResponsePackage {
                        response: InternEngineResponse::DirectResponse(
                            crate::commands::EngineResponse {
                                response_action: ResponseAction::Success,
                                broadcast_action: Some(
                                    BroadcastAction::PlayerChangedTeam {
                                        session: session_id,
                                        player,
                                        from_team: old_team,
                                        to_team: team,
                                    },
                                ),
                            },
                        ),
                        runtime_requests: None,
                    }
                } else {
                    not_found_numbered("team with id ", t as u64)
                }
            },
            None => InternEngineResponsePackage {
                response: InternEngineResponse::DirectResponse(
                    crate::commands::EngineResponse {
                        response_action: ResponseAction::Success,
                        broadcast_action: Some(
                            BroadcastAction::PlayerChangedTeam {
                                session: session_id,
                                player,
                                from_team: old_team,
                                to_team: team,
                            },
                        ),
                    },
                ),
                runtime_requests: None,
            },
        }
    }

    /// Team `catcher` catches team `caught` at `now` (`time` of day), while a game runs: the
    /// catcher must be catchers and the caught runners, and where both sent a location, the
    /// environment must not find them more than 300 m apart. The catchers collect the bounty
    /// and become runners in a grace period (see `TeamEntry::have_caught`), the caught become
    /// catchers (see `TeamEntry::be_caught`), both teams as they were before are broadcast, and
    /// the id of the catchers' new period is answered.
    fn catch<E: GameEnv>(
        &mut self,
        catcher: usize,
        caught: usize,
        context: &SessionContext,
        timers: &mut TimerTracker,
        env: &E,
        now: Moment,
        time: TimeOfDay,
    ) -> (p: InternEngineResponsePackage)
        ensures
            handles_catch(
                *old(self),
                *final(self),
                catcher,
                caught,
                *context,
                now,
                time,
                *old(timers),
                *final(timers),
                p,
            ),
            exists|too_far: bool|
                #[trigger] catch_verdict(env, old(self).teams@, catcher, caught, too_far) && handles_catch_judged(
                    *old(self),
                    *final(self),
                    catcher,
                    caught,
                    *context,
                    now,
                    time,
                    *old(timers),
                    *final(timers),
                    too_far,
                    p,
                ),
    {
        let mut too_far = false;
        if catcher < self.teams.len() && caught < self.teams.len() {
            if let (Some(a), Some(b)) = (self.teams[caught].location(), self.teams[catcher].location()) {
                too_far = env.farther_than(a, b, 300);
            }
        }
        let ghost teams = self.teams@;
        let p = self.catch_judged(catcher, caught, context, timers, env, now, time, too_far);
        assert(catch_verdict(env, teams, catcher, caught, too_far));
        p
    }

    /// Team `catcher` catches team `caught` at `now` (`time` of day), `too_far` telling whether
    /// their last known positions are more than 300 metres apart (`TeamsTooFar` where both are
    /// known and they are); otherwise as `catch`.
    pub fn catch_judged<E: GameEnv>(
        &mut self,
        catcher: usize,
        caught: usize,
        context: &SessionContext,
        timers: &mut TimerTracker,
        env: &E,
        now: Moment,
        time: TimeOfDay,
        too_far: bool,
    ) -> (p: InternEngineResponsePackage)
        ensures
            handles_catch_judged(
                *old(self),
                *final(self),
                catcher,
                caught,
                *context,
                now,
                time,
                *old(timers),
                *final(timers),
                too_far,
                p,
            ),
    {
        if self.game.is_none() {
            return InternEngineResponsePackage::action(ResponseAction::Error(Error::GameNotRunning));
        }
        if caught == catcher {
            return InternEngineResponsePackage::action(
                ResponseAction::Error(Error::BadData(String::from_str("a team cannot catch itself"))),
            );
        }
        if catcher >= self.teams.len() {
            return not_found_numbered("catcher team with id ", catcher as u64);
        }
        if self.teams[catcher].role == TeamRole::Runner {
            return InternEngineResponsePackage::action(ResponseAction::Error(Error::TeamIsRunner(catcher)));
        }
        if caught >= self.teams.len() {
            return not_found_numbered("caught team with id ", caught as u64);
        }
        if self.teams[caught].role == TeamRole::Catcher {
            return InternEngineResponsePackage::action(ResponseAction::Error(Error::TeamIsCatcher(caught)));
        }
        if too_far && self.teams[caught].current_location.is_some()
            && self.teams[catcher].current_location.is_some() {
            return InternEngineResponsePackage::action(ResponseAction::Error(Error::TeamsTooFar));
        }
        let bounty = self.teams[caught].bounty;
        let broadcast = BroadcastAction::Caught {
            catcher: self.teams[catcher].to_sendable(catcher, context, now),
            caught: self.teams[caught].to_sendable(caught, context, now),
        };
        let period_id = self.teams[catcher].periods.len();
        let request = self.teams[catcher].have_caught(bounty, caught, catcher, context, timers, env, now, time);
        self.teams[caught].be_caught(catcher, time);
        let mut requests: Vec<RuntimeRequest> = Vec::new();
        requests.push(request);
        InternEngineResponsePackage {
            response: InternEngineResponse::DirectResponse(
                crate::commands::EngineResponse {
                    response_action: ResponseAction::Period(period_id),
                    broadcast_action: Some(broadcast),
                },
            ),
            runtime_requests: Some(requests),
        }
    }

    /// Team `completer` completes its challenge at index `completed` at `now` (`time` of day),
    /// while a game runs (see `TeamEntry::complete_challenge`): the team as it is then and the
    /// challenge are broadcast, the id of the team's new period is answered, and the timer of a
    /// grace period that ends with it is cancelled.
    fn complete<E: GameEnv>(
        &mut self,
        completer: usize,
        completed: usize,
        context: &SessionContext,
        env: &E,
        now: Moment,
        time: TimeOfDay,
    ) -> (p: InternEngineResponsePackage)
        ensures
            handles_complete(
                *old(self),
                *final(self),
                completer,
                completed,
                *context,
                now,
                time,
                p,
            ),
    {
        if self.game.is_none() {
            return InternEngineResponsePackage::action(ResponseAction::Error(Error::GameNotRunning));
        }
        if completer >= self.teams.len() {
            return not_found_numbered("completer team with id ", completer as u64);
        }
        let ghost before = self.teams@;
        match self.teams[completer].complete_challenge(completed, context, env, time) {
            Ok((c, request)) => {
                assert(before[completer as int].completes_as(
                    self.teams@[completer as int],
                    completed,
                    *context,
                    time,
                    c,
                    request,
                ));
                assert(self.teams@ == before.update(completer as int, self.teams@[completer as int]));
                let team = &self.teams[completer];
                let t = team.to_sendable(completer, context, now);
                let period = team.periods.len() - 1;
                let requests = match request {
                    Some(r) => {
                        let mut v: Vec<RuntimeRequest> = Vec::new();
                        v.push(r);
                        Some(v)
                    },
                    None => None,
                };
                InternEngineResponsePackage {
                    response: InternEngineResponse::DirectResponse(
                        crate::commands::EngineResponse {
                            response_action: ResponseAction::Period(period),
                            broadcast_action: Some(
                                BroadcastAction::Completed { completer: t, completed: c.to_sendable() },
                            ),
                        },
                    ),
                    runtime_requests: requests,
                }
            },
            Err(e) => {
                assert(self.teams@ =~= before);
                InternEngineResponsePackage::action(ResponseAction::Error(e))
            },
        }
    }

    /// The events of all teams (see `events_in_order`), with the order of their sources.
    fn gather_events(&self) -> (r: (Vec<Event>, Ghost<Seq<int>>))
        ensures
            events_in_order(self.teams@, r.0@, r.1@),
    {
        let ghost teams = self.teams@;
        let mut evs: Vec<Event> = Vec::new();
        let ghost mut srcs: Seq<(int, int)> = Seq::empty();
        let mut i: usize = 0;
        while i < self.teams.len()
            invariant
                teams == self.teams@,
                i <= teams.len(),
                srcs == sources_upto(teams, i as int, 0),
                evs@.len() == srcs.len(),
                forall|k: int| 0 <= k < srcs.len() ==> shows_event(teams, srcs[k].0, srcs[k].1, #[trigger] evs@[k]),
                forall|k: int| 0 <= k < srcs.len() ==> 0 <= (#[trigger] srcs[k]).0 < teams.len() && 0 <= srcs[k].1 < teams[srcs[k].0].periods@.len(),
            decreases teams.len() - i,
        {
            let team = &self.teams[i];
            let mut j: usize = 0;
            while j < team.periods.len()
                invariant
                    teams == self.teams@,
                    i < teams.len(),
                    *team == teams[i as int],
                    j <= team.periods@.len(),
                    srcs == sources_upto(teams, i as int, j as int),
                    evs@.len() == srcs.len(),
                    forall|k: int| 0 <= k < srcs.len() ==> shows_event(teams, srcs[k].0, srcs[k].1, #[trigger] evs@[k]),
                    forall|k: int| 0 <= k < srcs.len() ==> 0 <= (#[trigger] srcs[k]).0 < teams.len() && 0 <= srcs[k].1 < teams[srcs[k].0].periods@.len(),
                decreases team.periods@.len() - j,
            {
                let p = &team.periods[j];
                let location = if p.location_end_index < team.locations.len() {
                    team.locations[p.location_end_index]
                } else {
                    MinimalLocation { latitude: 0, longitude: 0, timestamp: 0 }
                };
                let pictures = p.pictures.clone();
                assert(pictures@ =~= p.pictures@);
                match &p.context {
                    PeriodContext::CompletedChallenge { title, description, points, .. } => {
                        evs.push(
                            Event::Complete {
                                challenge: Challenge {
                                    title: title.clone(),
                                    description: description.clone(),
                                    points: *points,
                                },
                                completer_id: i,
                                time: p.end_time,
                                picture_ids: pictures,
                                location,
                            },
                        );
                        proof {
                            srcs = srcs.push((i as int, j as int));
                        }
                    },
                    PeriodContext::Catcher { caught_team, bounty } => {
                        evs.push(
                            Event::Catch {
                                catcher_id: i,
                                caught_id: *caught_team,
                                bounty: *bounty,
                                time: p.end_time,
                                picture_ids: pictures,
                                location,
                            },
                        );
                        proof {
                            srcs = srcs.push((i as int, j as int));
                        }
                    },
                    _ => {},
                }
                j = j + 1;
            }
            i = i + 1;
        }
        let (out, order) = sort_by_time(evs);
        (out, order)
    }

    /// Answers the events of the session (see `events_in_order`).
    fn get_events(&self) -> (p: InternEngineResponsePackage)
        ensures
            handles_get_events(
                *self,
                p,
            ),
    {
        let (events, order) = self.gather_events();
        let ghost evs = events@;
        let p = InternEngineResponsePackage::action(ResponseAction::SendEvents(events));
        assert(sends_events(p, self.teams@, order@));
        p
    }

    /// The teams as clients see them at `now`.
    fn sendable_teams(&self, context: &SessionContext, now: Moment) -> (ts: Vec<Team>)
        ensures
            shows_teams(self.teams@, *context.engine_context.player_db, now, ts@),
    {
        let mut ts: Vec<Team> = Vec::new();
        let mut i: usize = 0;
        while i < self.teams.len()
            invariant
                i <= self.teams@.len(),
                ts@.len() == i,
                forall|k: int| 0 <= k < i ==> self.teams@[k].shows_as(k as usize, *context.engine_context.player_db, now, #[trigger] ts@[k]),
            decreases self.teams@.len() - i,
        {
            ts.push(self.teams[i].to_sendable(i, context, now));
            i = i + 1;
        }
        ts
    }

    /// Answers the state of the session at `now`: its teams, its events and its game.
    fn get_state(&self, context: &SessionContext, now: Moment) -> (p: InternEngineResponsePackage)
        ensures
            handles_get_state(
                *self,
                *context,
                now,
                p,
            ),
    {
        let teams = self.sendable_teams(context, now);
        let (events, order) = self.gather_events();
        let game = match &self.game {
            Some(g) => Some(g.to_sendable()),
            None => None,
        };
        let p = InternEngineResponsePackage::action(ResponseAction::SendState { teams, events, game });
        assert(sends_state(p, *self, *context.engine_context.player_db, now, order@));
        p
    }

    /// Adds a team named `name`, unless the environment finds its name, in lower case, too
    /// similar to the lower-case name of a team already there (`TeamExists` with that team's
    /// name then). The team gets the colour asked for, else the first configured team colour
    /// that no team has, else black.
    fn add_team<E: GameEnv>(
        &mut self,
        name: String,
        discord_channel: Option<u64>,
        colour: Option<Colour>,
        env: &E,
    ) -> (p: InternEngineResponsePackage)
        ensures
            handles_add_team(
                *old(self),
                *final(self),
                name,
                discord_channel,
                colour,
                p,
            ),
    {
        let lower = lowercase(name.as_str());
        let mut similar: Option<usize> = None;
        let mut i: usize = 0;
        while i < self.teams.len()
            invariant
                i <= self.teams@.len(),
                similar matches Some(j) ==> j < self.teams@.len(),
            decreases self.teams@.len() - i,
        {
            let other = lowercase(self.teams[i].name.as_str());
            if env.names_similar(other.as_str(), lower.as_str()) {
                similar = Some(i);
                break;
            }
            i = i + 1;
        }
        self.add_team_judged(name, discord_channel, colour, similar)
    }

    /// Adds a team named `name` unless the name of team `similar` is too similar to it, in which
    /// case `TeamExists` with that team's name is answered: the new team comes last, a runner
    /// in the configured start zone, with the colour asked for or else the first one of the
    /// configured colours that no team has, else black.
    pub fn add_team_judged(
        &mut self,
        name: String,
        discord_channel: Option<u64>,
        colour: Option<Colour>,
        similar: Option<usize>,
    ) -> (p: InternEngineResponsePackage)
        requires
            similar matches Some(i) ==> i < old(self).teams@.len(),
        ensures
            handles_add_team_judged(
                *old(self),
                *final(self),
                name,
                discord_channel,
                colour,
                similar,
                p,
            ),
    {
        if let Some(i) = similar {
            return InternEngineResponsePackage::action(
                ResponseAction::Error(Error::TeamExists(self.teams[i].name.clone())),
            );
        }
        let config = self.config();
        let colour = match colour {
            Some(c) => c,
            None => self.free_colour(&config.team_colours),
        };
        let players: Vec<u64> = Vec::new();
        let team = TeamEntry::new(name, players, discord_channel, colour, config);
        let ghost before = self.teams@;
        self.teams.push(team);
        assert(self.teams@.drop_last() =~= before);
        InternEngineResponsePackage::action(ResponseAction::Success)
    }

    /// The first colour of `palette` that no team has, else black.
    fn free_colour(&self, palette: &Vec<Colour>) -> (c: Colour)
        ensures
            c == first_free_colour(palette@, self.teams@),
    {
        let mut k: usize = 0;
        assert(palette@.skip(0) =~= palette@);
        while k < palette.len()
            invariant
                k <= palette@.len(),
                first_free_colour(palette@.skip(k as int), self.teams@) == first_free_colour(palette@, self.teams@),
            decreases palette@.len() - k,
        {
            let c = palette[k];
            let mut i: usize = 0;
            let mut used = false;
            while i < self.teams.len()
                invariant
                    i <= self.teams@.len(),
                    used <==> exists|j: int| 0 <= j < i && self.teams@[j].colour == c,
                decreases self.teams@.len() - i,
            {
                if self.teams[i].colour == c {
                    used = true;
                }
                i = i + 1;
            }
            if !used {
                assert(palette@.skip(k as int)[0] == c);
                return c;
            }
            assert(palette@.skip(k as int).drop_first() =~= palette@.skip(k + 1));
            k = k + 1;
        }
        assert(palette@.skip(k as int).len() == 0);
        Colour { r: 0, g: 0, b: 0 }
    }

    /// Starts a game while none runs: `num_catchers` of the configuration (fewer than the teams,
    /// `BadData` otherwise) teams chosen at random start as catchers, the others as runners
    /// (`NotFound` where the start zone cannot be found), an alarm ends the game at the
    /// configured end time today (`InternalError` where that time does not exist today), and
    /// the game, named after the session and today's date, is broadcast with the teams.
    fn start<E: GameEnv>(
        &mut self,
        context: &SessionContext,
        timers: &mut TimerTracker,
        env: &E,
    ) -> (p: InternEngineResponsePackage)
        ensures
            handles_start(
                *old(self),
                *final(self),
                *context,
                *old(timers),
                *final(timers),
                p,
            ),
    {
        if self.game.is_some() {
            return InternEngineResponsePackage::action(ResponseAction::Error(Error::GameInProgress));
        }
        let n = context.config.num_catchers as usize;
        let len = self.teams.len();
        if n >= len {
            let text = with_number("cannot start game with ", n as u64).concat(
                " catchers when there are only ",
            ).concat(decimal_text(len as u64).as_str()).concat(" teams");
            return InternEngineResponsePackage::action(ResponseAction::Error(Error::BadData(text)));
        }
        let start = context.config.start_zone;
        let is_start = |z: &crate::entries::ZoneEntry| -> (b: bool)
            ensures
                b <==> z.zone == start,
            { z.zone == start };
        if context.engine_context.zone_db.find(is_start).is_none() {
            proof {
                let zones = *context.engine_context.zone_db;
                if has_zone_number(zones, start) {
                    let i = choose|i: int|
                        0 <= i < zones@.len() && crate::mirror::slot_live(zones@[i])
                            && crate::mirror::slot_value(zones@[i]).zone == start;
                    assert(zones@[i] is Some);
                }
            }
            return InternEngineResponsePackage::action(
                ResponseAction::Error(Error::NotFound(String::from_str("config start zone"))),
            );
        }
        let end = match end_time_today(&context.config) {
            Some(m) => m,
            None => {
                return InternEngineResponsePackage::action(ResponseAction::Error(Error::InternalError));
            },
        };
        let catchers = choose_below(len, n);
        self.begin_game(context, timers, end, catchers, env)
    }

    /// Starts a game while none runs, with fewer catchers than teams: the teams `catchers` as
    /// catchers and the others as runners (`NotFound` where the start zone cannot be found): an alarm ends the game at
    /// `end`, and the game, named after the session and today's date, is broadcast with the
    /// teams.
    pub fn begin_game<E: GameEnv>(
        &mut self,
        context: &SessionContext,
        timers: &mut TimerTracker,
        end: Moment,
        catchers: Vec<usize>,
        env: &E,
    ) -> (p: InternEngineResponsePackage)
        requires
            old(self).game is None,
            (context.config.num_catchers as usize) < old(self).teams@.len(),
            picks_catchers(catchers@, context.config.num_catchers as usize as int, old(self).teams@.len() as int),
        ensures
            *final(self) == (Session { teams: final(self).teams, game: final(self).game, ..*old(self) }),
            !has_zone_number(*context.engine_context.zone_db, context.config.start_zone) ==> final(self).game is None
                && *final(timers) == *old(timers) && not_found(p, "config start zone"@),
            has_zone_number(*context.engine_context.zone_db, context.config.start_zone) ==> {
                &&& game_started(*old(self), *final(self), *context, *old(timers), *final(timers), p)
                &&& teams_started(old(self).teams@, final(self).teams@, catchers@, *context)
                &&& final(self).game matches Some(g) && g.timer.end_time == end
            },
    {
        let n = context.config.num_catchers as usize;
        let len = self.teams.len();
        let ghost before = self.teams@;
        let ghost mut any = false;
        let mut k: usize = 0;
        while k < catchers.len()
            invariant
                *self == (Session { teams: self.teams, ..*old(self) }),
                *timers == *old(timers),
                old(self).game is None,
                n == context.config.num_catchers as usize,
                n < len,
                any ==> has_zone_number(*context.engine_context.zone_db, context.config.start_zone),
                k > 0 ==> any,
                before == old(self).teams@,
                picks_catchers(catchers@, n as int, len as int),
                len == before.len(),
                k <= catchers@.len(),
                self.teams@.len() == len,
                forall|i: int|
                    0 <= i < len && catchers@.take(k as int).contains(i as usize) ==> #[trigger] before[i].started_as_catcher(
                        self.teams@[i],
                        *context,
                    ),
                forall|i: int|
                    0 <= i < len && !catchers@.take(k as int).contains(i as usize) ==> #[trigger] self.teams@[i] == before[i],
            decreases catchers@.len() - k,
        {
            let id = catchers[k];
            match self.teams[id].start_catcher(context) {
                Ok(()) => {
                    proof {
                        any = true;
                    }
                },
                Err(e) => {
                    return InternEngineResponsePackage::action(ResponseAction::Error(e));
                },
            }
            proof {
                let ghost prev = catchers@.take(k as int);
                let ghost next = catchers@.take(k + 1);
                assert(next =~= prev.push(id));
                assert forall|x: usize| #[trigger] next.contains(x) <==> (prev.contains(x) || x == id) by {
                    if next.contains(x) && x != id {
                        let l = choose|l: int| 0 <= l < next.len() && #[trigger] next[l] == x;
                        assert(prev[l] == x);
                    }
                    if prev.contains(x) {
                        let l = choose|l: int| 0 <= l < prev.len() && #[trigger] prev[l] == x;
                        assert(next[l] == x);
                    }
                    if x == id {
                        assert(next[k as int] == x);
                    }
                }
                assert(!prev.contains(id)) by {
                    if prev.contains(id) {
                        let l = choose|l: int| 0 <= l < prev.len() && #[trigger] prev[l] == id;
                        assert(catchers@[l] == catchers@[k as int]);
                    }
                }
            }
            k = k + 1;
        }
        assert(catchers@.take(catchers@.len() as int) =~= catchers@);
        let mut i: usize = 0;
        while i < len
            invariant
                *self == (Session { teams: self.teams, ..*old(self) }),
                *timers == *old(timers),
                old(self).game is None,
                n == context.config.num_catchers as usize,
                n < len,
                any ==> has_zone_number(*context.engine_context.zone_db, context.config.start_zone),
                catchers@.len() > 0 || i > 0 ==> any,
                before == old(self).teams@,
                picks_catchers(catchers@, n as int, len as int),
                len == before.len(),
                i <= len,
                self.teams@.len() == len,
                forall|j: int|
                    0 <= j < len && catchers@.contains(j as usize) ==> #[trigger] before[j].started_as_catcher(
                        self.teams@[j],
                        *context,
                    ),
                forall|j: int|
                    0 <= j < i && !catchers@.contains(j as usize) ==> #[trigger] before[j].started_as_runner(
                        self.teams@[j],
                        *context,
                    ),
                forall|j: int|
                    i <= j < len && !catchers@.contains(j as usize) ==> #[trigger] self.teams@[j] == before[j],
            decreases len - i,
        {
            if !contains_index(&catchers, i) {
                match self.teams[i].start_runner(context, env) {
                    Ok(()) => {
                        proof {
                            any = true;
                        }
                    },
                    Err(e) => {
                        return InternEngineResponsePackage::action(ResponseAction::Error(e));
                    },
                }
            }
            i = i + 1;
        }
        assert(teams_started(before, self.teams@, catchers@, *context));
        let (_, timer) = timers.alarm(
            end,
            InternEngineCommand::Command(
                Box::new(EngineCommand { session: Some(context.session_id), action: EngineAction::Stop }),
            ),
        );
        let request = RuntimeRequest::CreateAlarm {
            time: timer.end_time,
            payload: InternEngineCommand::Command(
                Box::new(EngineCommand { session: Some(context.session_id), action: EngineAction::Stop }),
            ),
            id: timer.id,
        };
        let now = now_moment();
        let today = local_date();
        let name = self.name.clone().concat(" am ").concat(
            date_text(today.year, today.month, today.day).as_str(),
        );
        let game = InGame { name, start_time: now, date: today, mode: self.mode, timer };
        let g = game.to_sendable();
        self.game = Some(game);
        let teams = self.sendable_teams(context, now);
        let mut requests: Vec<RuntimeRequest> = Vec::new();
        requests.push(request);
        InternEngineResponsePackage {
            response: InternEngineResponse::DirectResponse(
                crate::commands::EngineResponse {
                    response_action: ResponseAction::Success,
                    broadcast_action: Some(BroadcastAction::Started { teams, game: g }),
                },
            ),
            runtime_requests: Some(requests),
        }
    }

    /// Ends the running game (`GameNotRunning` where none runs): it is kept among the past games
    /// with its teams as they were, every team is reset (see `TeamEntry::reset`), the end is
    /// broadcast, and the game's alarm and the timers of running grace periods are cancelled.
    fn stop(&mut self, context: &SessionContext, records: &mut EngineRecords) -> (p:
        InternEngineResponsePackage)
        ensures
            handles_stop(
                *old(self),
                *final(self),
                *context,
                *old(records),
                *final(records),
                p,
            ),
    {
        let game = match self.game.take() {
            None => {
                return InternEngineResponsePackage::action(ResponseAction::Error(Error::GameNotRunning));
            },
            Some(g) => g,
        };
        let ghost g = game;
        let mut requests: Vec<RuntimeRequest> = Vec::new();
        requests.push(game.timer.cancel_request());
        let now = now_moment();
        let past = PastGame::new_now(game, &self.teams, now);
        if records.past_game_db.slots() < usize::MAX {
            let ghost pv = past;
            let id = records.past_game_db.add(past);
            assert(keeps_game(pv, g, self.teams@));
            assert(added(old(records).past_game_db@, records.past_game_db@, id as int, pv));
        }
        let ghost before = self.teams@;
        let ghost f = |t: TeamEntry|
            match t.grace_period_end {
                Some(h) => Some(RuntimeRequest::CancelTimer(h.id)),
                None => None,
            };
        let mut i: usize = 0;
        while i < self.teams.len()
            invariant
                *self == (Session { teams: self.teams, game: None, ..*old(self) }),
                before == old(self).teams@,
                self.teams@.len() == before.len(),
                i <= before.len(),
                f == (|t: TeamEntry|
                    match t.grace_period_end {
                        Some(h) => Some(RuntimeRequest::CancelTimer(h.id)),
                        None => None,
                    }),
                requests@ == seq![RuntimeRequest::CancelTimer(g.timer.id)] + before.take(i as int).filter_map(f),
                forall|j: int| 0 <= j < i ==> #[trigger] before[j].reset_as(self.teams@[j], *context),
                forall|j: int| i <= j < before.len() ==> #[trigger] self.teams@[j] == before[j],
            decreases before.len() - i,
        {
            proof {
                before.lemma_filter_map_take_succ(f, i as int);
            }
            let _ = self.teams[i].reset(context);
            match &self.teams[i].grace_period_end {
                Some(h) => {
                    requests.push(h.cancel_request());
                },
                None => {},
            }
            proof {
                assert(requests@ =~= seq![RuntimeRequest::CancelTimer(g.timer.id)] + before.take(i + 1).filter_map(f));
            }
            i = i + 1;
        }
        assert(before.take(before.len() as int) =~= before);
        InternEngineResponsePackage {
            response: InternEngineResponse::DirectResponse(
                crate::commands::EngineResponse {
                    response_action: ResponseAction::Success,
                    broadcast_action: Some(BroadcastAction::Ended),
                },
            ),
            runtime_requests: Some(requests),
        }
    }

    /// Asks for the conversion of `picture` into the profile picture of team `team_id`.
    fn upload_team_picture(&self, team_id: usize, picture: RawPicture, session_id: u64) -> (p:
        InternEngineResponsePackage)
        ensures
            handles_upload_team_picture(
                *self,
                team_id,
                picture,
                session_id,
                p,
            ),
    {
        if team_id >= self.teams.len() {
            return not_found_numbered("team with id ", team_id as u64);
        }
        InternEngineResponsePackage::from_response(
            InternEngineResponse::DelayedLoopback(
                OutsideWork::MakeTeamProfile { session_id, team_id, picture },
            ),
        )
    }

    /// Stores the converted profile picture of team `team_id` and makes it the team's picture
    /// (`PictureProblem` where the conversion failed).
    pub fn set_team_picture(
        &mut self,
        team_id: usize,
        profile: Option<PictureEntry>,
        records: &mut EngineRecords,
    ) -> (p: InternEngineResponsePackage)
        ensures
            handles_set_team_picture(
                *old(self),
                *final(self),
                team_id,
                profile,
                *old(records),
                *final(records),
                p,
            ),
    {
        if team_id >= self.teams.len() {
            return not_found_numbered("team with id ", team_id as u64);
        }
        match profile {
            None => InternEngineResponsePackage::action(ResponseAction::Error(Error::PictureProblem)),
            Some(e) => {
                if records.picture_db.slots() == usize::MAX {
                    return InternEngineResponsePackage::action(ResponseAction::Error(Error::InternalError));
                }
                let ghost ev = e;
                let id = records.picture_db.add(e);
                assert(added(old(records).picture_db@, records.picture_db@, id as int, ev));
                self.teams[team_id].picture = Some(id);
                InternEngineResponsePackage::action(ResponseAction::Success)
            },
        }
    }

    /// Stores `pictures` as pictures of period `period_id` of team `team_id`, in order.
    fn upload_period_pictures(
        &mut self,
        team_id: usize,
        period_id: usize,
        pictures: Vec<RawPicture>,
        records: &mut EngineRecords,
    ) -> (p: InternEngineResponsePackage)
        ensures
            handles_upload_period_pictures(
                *old(self),
                *final(self),
                team_id,
                period_id,
                pictures@,
                *old(records),
                *final(records),
                p,
            ),
    {
        if team_id >= self.teams.len() {
            return not_found_numbered("team with id ", team_id as u64);
        }
        if period_id >= self.teams[team_id].periods.len() {
            let text = with_number("period with index ", period_id as u64).concat(" in team ").concat(
                self.teams[team_id].name.as_str(),
            );
            return InternEngineResponsePackage::action(ResponseAction::Error(Error::NotFound(text)));
        }
        if records.picture_db.slots() > usize::MAX - pictures.len() {
            return InternEngineResponsePackage::action(ResponseAction::Error(Error::InternalError));
        }
        let ghost before = self.teams@;
        let ghost db_before = records.picture_db@;
        let ghost old_pics = before[team_id as int].periods@[period_id as int].pictures@;
        let mut rest = pictures;
        let ghost all = rest@;
        assert(old_pics.take(old_pics.len() as int) =~= old_pics);
        assert(all.take(0) =~= Seq::<RawPicture>::empty());
        let mut k: usize = 0;
        while rest.len() > 0
            invariant
                *self == (Session { teams: self.teams, ..*old(self) }),
                before == old(self).teams@,
                db_before == old(records).picture_db@,
                team_id < before.len(),
                period_id < before[team_id as int].periods@.len(),
                old_pics == before[team_id as int].periods@[period_id as int].pictures@,
                final_period_shape(before, self.teams@, team_id, period_id),
                k + rest@.len() == all.len(),
                rest@ == all.subrange(k as int, all.len() as int),
                records.picture_db@.len() <= db_before.len() + k,
                db_before.len() + all.len() <= usize::MAX,
                records.past_game_db == old(records).past_game_db,
                records.timer_tracker == old(records).timer_tracker,
                stores_pictures(
                    old_pics,
                    self.teams@[team_id as int].periods@[period_id as int].pictures@,
                    all.take(k as int),
                    db_before,
                    records.picture_db@,
                ),
            decreases rest@.len(),
        {
            let picture = rest.remove(0);
            let ghost before_db = records.picture_db@;
            let ghost pics_before = self.teams@[team_id as int].periods@[period_id as int].pictures@;
            let id = records.picture_db.add(PictureEntry::new_challenge_picture(picture));
            self.teams[team_id].periods[period_id].pictures.push(id);
            proof {
                assert(all.take(k + 1) =~= all.take(k as int).push(all[k as int]));
                lemma_store_one(old_pics, pics_before, all.take(k as int), db_before, before_db, records.picture_db@, id, all[k as int]);
            }
            k = k + 1;
            assert(rest@ =~= all.subrange(k as int, all.len() as int));
        }
        assert(all.take(k as int) =~= all);
        InternEngineResponsePackage::action(ResponseAction::Success)
    }

    /// Answers every team at `now` with its track.
    fn send_locations(&self, context: &SessionContext, now: Moment) -> (p: InternEngineResponsePackage)
        ensures
            handles_send_locations(
                *self,
                *context,
                now,
                p,
            ),
    {
        let mut v: Vec<(Team, Vec<MinimalLocation>)> = Vec::new();
        let mut i: usize = 0;
        while i < self.teams.len()
            invariant
                i <= self.teams@.len(),
                v@.len() == i,
                forall|k: int|
                    0 <= k < i ==> self.teams@[k].shows_as(
                        k as usize,
                        *context.engine_context.player_db,
                        now,
                        (#[trigger] v@[k]).0,
                    ) && v@[k].1@ == self.teams@[k].locations@,
            decreases self.teams@.len() - i,
        {
            let t = self.teams[i].to_sendable(i, context, now);
            let track = self.teams[i].locations.clone();
            assert(track@ =~= self.teams@[i as int].locations@);
            v.push((t, track));
            i = i + 1;
        }
        InternEngineResponsePackage::action(ResponseAction::SendLocations(v))
    }

    /// Answers the track of team `team_id`: all of it, or the points of the last
    /// `of_past_seconds` seconds before `now`.
    fn send_past_locations(&self, team_id: usize, of_past_seconds: Option<u32>, now: Moment) -> (p:
        InternEngineResponsePackage)
        ensures
            handles_send_past_locations(
                *self,
                team_id,
                of_past_seconds,
                now,
                p,
            ),
    {
        if team_id >= self.teams.len() {
            return not_found_numbered("team with id ", team_id as u64);
        }
        let track = &self.teams[team_id].locations;
        let locations = match of_past_seconds {
            None => {
                let v = track.clone();
                assert(v@ =~= track@);
                v
            },
            Some(s) => {
                let secs: i64 = if now >= 0 {
                    now / 1000
                } else {
                    let m: i128 = -(now as i128);
                    -((m / 1000) as i64)
                };
                let since: i64 = secs - s as i64;
                let ghost pred = |m: MinimalLocation| m.timestamp >= since;
                let mut v: Vec<MinimalLocation> = Vec::new();
                let mut k: usize = 0;
                while k < track.len()
                    invariant
                        k <= track@.len(),
                        pred == (|m: MinimalLocation| m.timestamp >= since),
                        since == seconds_ago(now, s),
                        v@ == track@.take(k as int).filter(pred),
                    decreases track@.len() - k,
                {
                    proof {
                        assert(track@.take(k + 1) =~= track@.take(k as int).push(track@[k as int]));
                        track@.take(k as int).lemma_filter_push(track@[k as int], pred);
                    }
                    if track[k].timestamp >= since {
                        v.push(track[k]);
                    }
                    k = k + 1;
                }
                assert(track@.take(track@.len() as int) =~= track@);
                v
            },
        };
        InternEngineResponsePackage::action(ResponseAction::SendPastLocations { team_id, locations })
    }

    /// Handles `command` for this session, which has id `session_id`, with the collections the
    /// engine lends (`context`) and its records, at the current local time. Global commands
    /// are refused with `SessionSupplied`. See `session_handles`.
    pub fn vroom<E: GameEnv>(
        &mut self,
        command: EngineAction,
        session_id: u64,
        context: EngineContext,
        records: &mut EngineRecords,
        env: &E,
    ) -> (p: InternEngineResponsePackage)
        ensures
            exists|c: SessionContext, now: Moment, time: TimeOfDay|
                is_session_context(*old(self), context, session_id, c) && #[trigger] session_handles(
                    *old(self),
                    *final(self),
                    command,
                    session_id,
                    context,
                    c,
                    now,
                    time,
                    *old(records),
                    *final(records),
                    p,
                ),
    {
        let ghost cmd = command;
        let ctx = self.context(context, session_id);
        let now = now_moment();
        let time = local_time_of_day();
        let p = match command {
            EngineAction::GetLocations => self.send_locations(&ctx, now),
            EngineAction::GetPastLocations { team_id, of_past_seconds } => self.send_past_locations(
                team_id,
                of_past_seconds,
                now,
            ),
            EngineAction::UploadPeriodPictures { pictures, team, period } => self.upload_period_pictures(
                team,
                period,
                pictures,
                records,
            ),
            EngineAction::UploadTeamPicture { team_id, picture } => self.upload_team_picture(
                team_id,
                picture,
                session_id,
            ),
            EngineAction::GetEvents => self.get_events(),
            EngineAction::GenerateTeamChallenges(id) => self.generate_team_challenges(id, &ctx, env),
            EngineAction::AddChallengeToTeam { team, challenge } => self.add_challenge_to_team(
                team,
                challenge,
            ),
            EngineAction::RenameTeam { team, new_name } => self.rename_team(team, new_name),
            EngineAction::MakeTeamCatcher(id) => self.make_team_catcher(id, &ctx, now),
            EngineAction::MakeTeamRunner(id) => self.make_team_runner(id, &ctx, now),
            EngineAction::SendLocation { player, location } => self.send_location(player, location, env),
            EngineAction::AssignPlayerToTeam { player, team } => self.assign_player_to_team(
                player,
                team,
                session_id,
            ),
            EngineAction::Catch { catcher, caught, .. } => self.catch(
                catcher,
                caught,
                &ctx,
                &mut records.timer_tracker,
                env,
                now,
                time,
            ),
            EngineAction::Complete { completer, completed, .. } => self.complete(
                completer,
                completed,
                &ctx,
                env,
                now,
                time,
            ),
            EngineAction::GetState => self.get_state(&ctx, now),
            EngineAction::AddTeam { name, discord_channel, colour } => self.add_team(
                name,
                discord_channel,
                colour,
                env,
            ),
            EngineAction::Start => self.start(&ctx, &mut records.timer_tracker, env),
            EngineAction::Stop => self.stop(&ctx, records),
            EngineAction::GetGameConfig => {
                let g = self.config().to_game_config();
                InternEngineResponsePackage::action(ResponseAction::SendGameConfig(g))
            },
            EngineAction::SetGameConfig(v) => {
                self.config.set_game_values(v);
                InternEngineResponsePackage::action(ResponseAction::Success)
            },
            _ => InternEngineResponsePackage::action(ResponseAction::Error(Error::SessionSupplied)),
        };
        assert(session_handles(
            *old(self),
            *self,
            cmd,
            session_id,
            context,
            ctx,
            now,
            time,
            *old(records),
            *records,
            p,
        ));
        p
    }
}

} // verus!
