//! Teams in a running or future game: their locations, periods, challenges and what happens to
//! them when they catch, are caught or complete a challenge.
use crate::challenge::InOpenChallenge;
use crate::commands::Error;
use crate::config::Config;
use crate::context::{EngineRecords, SessionContext};
use crate::entries::PlayerEntry;
use crate::env::GameEnv;
use crate::entries::ZoneEntry;
use crate::generation::{
    generate_for, generated_for, has_live_challenge, has_zone_number, period_lengths_fit, period_lengths_fit_in,
    stems_from_store,
};
use crate::mirror::{slot_value, DBMirror};
use crate::model::{
    Challenge, Colour, CompletedChallenge, DetailedLocation, MinimalLocation, Moment, Player, Team,
    TeamRole, TimeOfDay,
};
use crate::runtime::{InternEngineCommand, RuntimeRequest};
use crate::text::{decimal, with_number};
use crate::timer::{moment_after, next_timer_id, TimerHook, TimerTracker};
use std::collections::HashMap;
use vstd::prelude::*;

verus! {

broadcast use vstd::std_specs::hash::group_hash_axioms;

/// A team of a running or future game, as stored.
#[derive(Debug, Clone)]
pub struct TeamEntry {
    pub name: String,
    pub picture: Option<u64>,
    pub players: Vec<u64>,
    /// For each player: how many locations they sent, and how many of those were taken.
    pub player_location_counts: HashMap<u64, LocationCounts>,
    pub discord_channel: Option<u64>,
    pub role: TeamRole,
    pub colour: Colour,
    pub points: u64,
    pub bounty: u64,
    pub current_zone_id: u64,
    pub current_location: Option<DetailedLocation>,
    /// The track of the team: locations at least 20 m and 10 s apart, and one at the end of
    /// every period.
    pub locations: Vec<MinimalLocation>,
    pub location_sending_player: Option<u64>,
    pub challenges: Vec<InOpenChallenge>,
    pub periods: Vec<Period>,
    pub grace_period_end: Option<TimerHook>,
}

/// How many locations a player sent, and how many of those were taken.
#[derive(Debug, Clone, Copy, PartialEq, Eq, Structural)]
pub struct LocationCounts {
    pub sent: u32,
    pub taken: u32,
}

/// Something a team did in a running game, and the part of its track that led there.
#[derive(Debug, Clone)]
pub struct Period {
    pub pictures: Vec<u64>,
    pub context: PeriodContext,
    pub location_start_index: usize,
    pub location_end_index: usize,
    pub end_time: TimeOfDay,
}

/// What a team did in a period.
#[derive(Debug, Clone)]
pub enum PeriodContext {
    /// Trophies bought at the end of the period, and the points spent on them.
    Trophy { trophies: u64, points_spent: u64 },
    /// The team was caught by `catcher_team` and handed over `bounty`.
    Caught { catcher_team: usize, bounty: u64 },
    /// The team caught `caught_team` and collected `bounty`.
    Catcher { caught_team: usize, bounty: u64 },
    /// The team completed the challenge with id `id`.
    CompletedChallenge {
        title: String,
        description: String,
        zone: Option<u64>,
        points: u64,
        id: u64,
    },
}

impl PeriodContext {
    /// `self` and `other` are the same context, strings compared by their text.
    pub open spec fn same_as(self, other: PeriodContext) -> bool {
        match (self, other) {
            (
                PeriodContext::CompletedChallenge { title: a, description: b, zone: c, points: d, id: e },
                PeriodContext::CompletedChallenge { title: f, description: g, zone: h, points: i, id: j },
            ) => a@ == f@ && b@ == g@ && c == h && d == i && e == j,
            (PeriodContext::CompletedChallenge { .. }, _) => false,
            (_, PeriodContext::CompletedChallenge { .. }) => false,
            _ => self == other,
        }
    }

    /// A copy of the context.
    pub fn duplicate(&self) -> (c: PeriodContext)
        ensures
            c.same_as(*self),
    {
        match self {
            PeriodContext::Trophy { trophies, points_spent } => PeriodContext::Trophy {
                trophies: *trophies,
                points_spent: *points_spent,
            },
            PeriodContext::Caught { catcher_team, bounty } => PeriodContext::Caught {
                catcher_team: *catcher_team,
                bounty: *bounty,
            },
            PeriodContext::Catcher { caught_team, bounty } => PeriodContext::Catcher {
                caught_team: *caught_team,
                bounty: *bounty,
            },
            PeriodContext::CompletedChallenge { title, description, zone, points, id } => {
                PeriodContext::CompletedChallenge {
                    title: title.clone(),
                    description: description.clone(),
                    zone: *zone,
                    points: *points,
                    id: *id,
                }
            },
        }
    }
}

/// How many locations player `p` sent and how many of those were taken, by `counts`.
pub open spec fn location_count(counts: Map<u64, LocationCounts>, p: u64) -> LocationCounts {
    if counts.contains_key(p) {
        counts[p]
    } else {
        LocationCounts { sent: 0, taken: 0 }
    }
}

/// Whether a new fix replaces the previous one: it is accurate to 20 m, or more accurate than
/// the previous one, or at most half again as inaccurate but more than 15 s younger, or more
/// than 30 s younger.
pub open spec fn accepts_location(prev: DetailedLocation, new: DetailedLocation) -> bool {
    let waited = new.timestamp.wrapping_sub(prev.timestamp);
    new.accuracy < 20 || new.accuracy < prev.accuracy || (waited > 15 && 2 * new.accuracy < 3
        * prev.accuracy) || waited > 30
}

/// The track after a fix `m`: the fix starts an empty track; otherwise it is added or not, and
/// only if it is more than 10 s younger than the last point.
pub open spec fn track_extended(
    before: Seq<MinimalLocation>,
    after: Seq<MinimalLocation>,
    m: MinimalLocation,
) -> bool {
    if before.len() == 0 {
        after == seq![m]
    } else {
        after == before || (after == before.push(m) && m.timestamp.wrapping_sub(
            before.last().timestamp,
        ) > 10)
    }
}

/// The origin, where a period ends for a team that never sent a location.
pub open spec fn origin() -> MinimalLocation {
    MinimalLocation { latitude: 0, longitude: 0, timestamp: 0 }
}

/// The track at the end of a period: the current location is added, and an empty track gets the
/// origin.
pub open spec fn period_track(
    locations: Seq<MinimalLocation>,
    current: Option<DetailedLocation>,
) -> Seq<MinimalLocation> {
    let with_current = match current {
        Some(c) => locations.push(c.minimal()),
        None => locations,
    };
    if with_current.len() == 0 {
        seq![origin()]
    } else {
        with_current
    }
}

/// Where the track of the next period starts: after the end of the last one.
pub open spec fn next_period_start(periods: Seq<Period>) -> usize {
    if periods.len() == 0 {
        0
    } else {
        periods.last().location_end_index.wrapping_add(1)
    }
}

/// The id of the challenge completed in period `p`, if it is a completion.
pub open spec fn completed_id(p: Period) -> Option<u64> {
    match p.context {
        PeriodContext::CompletedChallenge { id, .. } => Some(id),
        _ => None,
    }
}

/// The ids of the challenges completed in `periods`, in order.
pub open spec fn completed_ids(periods: Seq<Period>) -> Seq<u64> {
    periods.filter_map(|p: Period| completed_id(p))
}

/// The ids of the challenges completed in `periods`, in order.
fn completed_challenge_ids(periods: &Vec<Period>) -> (ids: Vec<u64>)
    ensures
        ids@ == completed_ids(periods@),
{
    let mut ids: Vec<u64> = Vec::new();
    let mut i: usize = 0;
    while i < periods.len()
        invariant
            i <= periods@.len(),
            ids@ == completed_ids(periods@.take(i as int)),
        decreases periods@.len() - i,
    {
        proof {
            periods@.lemma_filter_map_take_succ(|p: Period| completed_id(p), i as int);
        }
        match &periods[i].context {
            PeriodContext::CompletedChallenge { id, .. } => {
                ids.push(*id);
            },
            _ => {},
        }
        i = i + 1;
    }
    assert(periods@.take(periods@.len() as int) =~= periods@);
    ids
}

/// The players of `ids` that the player collection `db` holds, in order.
pub open spec fn known_players(ids: Seq<u64>, db: DBMirror<PlayerEntry>) -> Seq<u64> {
    ids.filter(|p: u64| db.spec_get(p as int) is Some)
}

/// The periods of `periods` in which a challenge was completed, in order.
pub open spec fn completion_periods(periods: Seq<Period>) -> Seq<Period> {
    periods.filter(|p: Period| completed_id(p) is Some)
}

/// `c` is how clients see the challenge completed in period `p`.
pub open spec fn shows_completion(p: Period, c: CompletedChallenge) -> bool {
    match p.context {
        PeriodContext::CompletedChallenge { title, description, points, id, .. } => {
            &&& c.title@ == title@
            &&& c.description@ == description@
            &&& c.points == points
            &&& c.time == p.end_time
            &&& c.picture_ids@ == p.pictures@
            &&& c.id == id
        },
        _ => false,
    }
}

/// `c` is how clients see the open challenge `o`.
pub open spec fn shows_challenge(o: InOpenChallenge, c: Challenge) -> bool {
    c.title@ == o.title@ && c.description@ == o.description@ && c.points == o.points
}

/// Whether a team whose grace period ends as `end` says is in its grace period at `now`.
pub open spec fn in_grace_period(end: Option<TimerHook>, now: Moment) -> bool {
    match end {
        Some(h) => now <= h.end_time,
        None => false,
    }
}

/// `id` is the first readable zone with zone number `number`.
pub open spec fn is_first_zone_numbered(zones: DBMirror<ZoneEntry>, number: u64, id: u64) -> bool {
    &&& id < zones@.len()
    &&& crate::mirror::slot_live(zones@[id as int])
    &&& slot_value(zones@[id as int]).zone == number
    &&& forall|j: int|
        0 <= j < id && crate::mirror::slot_live(zones@[j]) ==> slot_value(zones@[j]).zone != number
}

/// New challenges can be generated for a team in zone `zone_id` (see `generate_for`), and
/// the period lengths of the configuration can be turned into durations.
pub open spec fn can_generate(zone_id: u64, context: SessionContext) -> bool {
    &&& period_lengths_fit(context.config)
    &&& context.engine_context.zone_db.spec_get(zone_id as int) is Some
    &&& has_zone_number(*context.engine_context.zone_db, context.config.centre_zone)
    &&& has_live_challenge(*context.engine_context.challenge_db)
}

/// `after` is the bounty `before` with a share that the environment may give for a challenge
/// worth `points` added (wrapping at the end of `u64`).
pub open spec fn adds_bounty_share<E: GameEnv>(env: &E, before: u64, after: u64, points: u64, config: Config) -> bool {
    exists|share: u64|
        #[trigger] call_ensures(E::bounty_share, (env, points, &config), share) && after == before.wrapping_add(share)
}

/// Completing a challenge raises the bounty by what the environment may give as the share of
/// the challenge's points: the growth of the bounty, taken modulo 2^64, is such a share. No
/// earlier bounty is lost.
pub proof fn law_completion_adds_bounty_share<E: GameEnv>(env: &E, before: u64, after: u64, points: u64, config: Config)
    requires
        adds_bounty_share(env, before, after, points, config),
    ensures
        call_ensures(
            E::bounty_share,
            (env, points, &config),
            ((after - before + 0x1_0000_0000_0000_0000) % 0x1_0000_0000_0000_0000) as u64,
        ),
{
    let share = choose|share: u64|
        #[trigger] call_ensures(E::bounty_share, (env, points, &config), share) && after == before.wrapping_add(share);
    assert(((after - before + 0x1_0000_0000_0000_0000) % 0x1_0000_0000_0000_0000) as u64 == share);
}

impl TeamEntry {
    /// `t` is how clients see this team under id `index` at `now`, with its players looked up
    /// in `players` (those that cannot be found are left out).
    pub open spec fn shows_as(self, index: usize, players: DBMirror<PlayerEntry>, now: Moment, t: Team) -> bool {
        let ids = known_players(self.players@, players);
        let done = completion_periods(self.periods@);
        &&& t.colour == self.colour
        &&& t.role == self.role
        &&& t.name@ == self.name@
        &&& t.picture_id == self.picture
        &&& t.id == index
        &&& t.bounty == self.bounty
        &&& t.points == self.points
        &&& t.players@.len() == ids.len()
        &&& forall|k: int| 0 <= k < ids.len() ==> players.spec_get(ids[k] as int).unwrap().shows_as(ids[k], #[trigger] t.players@[k])
        &&& t.challenges@.len() == self.challenges@.len()
        &&& forall|k: int| 0 <= k < self.challenges@.len() ==> shows_challenge(self.challenges@[k], #[trigger] t.challenges@[k])
        &&& t.completed_challenges@.len() == done.len()
        &&& forall|k: int| 0 <= k < done.len() ==> shows_completion(done[k], #[trigger] t.completed_challenges@[k])
        &&& t.location == self.current_location
        &&& t.in_grace_period == in_grace_period(self.grace_period_end, now)
        &&& t.period_id == self.periods@.len()
    }

    /// The team as clients see it under id `index` at `now`; players that the player collection
    /// does not hold are left out.
    pub fn to_sendable(&self, index: usize, context: &SessionContext, now: Moment) -> (t: Team)
        ensures
            self.shows_as(index, *context.engine_context.player_db, now, t),
    {
        let db = context.engine_context.player_db;
        let mut players: Vec<Player> = Vec::new();
        let ghost pred = |p: u64| db.spec_get(p as int) is Some;
        let mut i: usize = 0;
        while i < self.players.len()
            invariant
                i <= self.players@.len(),
                pred == (|p: u64| db.spec_get(p as int) is Some),
                players@.len() == known_players(self.players@.take(i as int), *db).len(),
                forall|k: int|
                    0 <= k < players@.len() ==> {
                        let id = known_players(self.players@.take(i as int), *db)[k];
                        db.spec_get(id as int).unwrap().shows_as(id, #[trigger] players@[k])
                    },
            decreases self.players@.len() - i,
        {
            let p = self.players[i];
            proof {
                assert(self.players@.take(i + 1) =~= self.players@.take(i as int).push(p));
                self.players@.take(i as int).lemma_filter_push(p, pred);
            }
            match db.get(p) {
                Some(entry) => {
                    players.push(entry.to_sendable(p));
                },
                None => {},
            }
            i = i + 1;
        }
        assert(self.players@.take(self.players@.len() as int) =~= self.players@);
        let mut challenges: Vec<Challenge> = Vec::new();
        let mut i: usize = 0;
        while i < self.challenges.len()
            invariant
                i <= self.challenges@.len(),
                challenges@.len() == i,
                forall|k: int| 0 <= k < i ==> shows_challenge(self.challenges@[k], #[trigger] challenges@[k]),
            decreases self.challenges@.len() - i,
        {
            challenges.push(self.challenges[i].to_sendable());
            i = i + 1;
        }
        let mut completed: Vec<CompletedChallenge> = Vec::new();
        let ghost is_done = |p: Period| completed_id(p) is Some;
        let mut i: usize = 0;
        while i < self.periods.len()
            invariant
                i <= self.periods@.len(),
                is_done == (|p: Period| completed_id(p) is Some),
                completed@.len() == completion_periods(self.periods@.take(i as int)).len(),
                forall|k: int|
                    0 <= k < completed@.len() ==> shows_completion(
                        completion_periods(self.periods@.take(i as int))[k],
                        #[trigger] completed@[k],
                    ),
            decreases self.periods@.len() - i,
        {
            let p = &self.periods[i];
            proof {
                assert(self.periods@.take(i + 1) =~= self.periods@.take(i as int).push(*p));
                self.periods@.take(i as int).lemma_filter_push(*p, is_done);
            }
            match &p.context {
                PeriodContext::CompletedChallenge { title, description, points, id, .. } => {
                    completed.push(
                        CompletedChallenge {
                            title: title.clone(),
                            description: description.clone(),
                            points: *points,
                            time: p.end_time,
                            picture_ids: p.pictures.clone(),
                            id: *id,
                        },
                    );
                },
                _ => {},
            }
            i = i + 1;
        }
        assert(self.periods@.take(self.periods@.len() as int) =~= self.periods@);
        Team {
            colour: self.colour,
            role: self.role,
            name: self.name.clone(),
            picture_id: self.picture,
            id: index,
            bounty: self.bounty,
            points: self.points,
            players,
            challenges,
            completed_challenges: completed,
            location: self.current_location,
            in_grace_period: match &self.grace_period_end {
                None => false,
                Some(timer) => now <= timer.end_time,
            },
            period_id: self.periods.len(),
        }
    }

    /// Everything but the location data is the same in `self` and `other`.
    pub open spec fn same_but_locations(self, other: TeamEntry) -> bool {
        &&& self.name == other.name
        &&& self.picture == other.picture
        &&& self.players == other.players
        &&& self.discord_channel == other.discord_channel
        &&& self.role == other.role
        &&& self.colour == other.colour
        &&& self.points == other.points
        &&& self.bounty == other.bounty
        &&& self.current_zone_id == other.current_zone_id
        &&& self.challenges == other.challenges
        &&& self.periods == other.periods
        &&& self.grace_period_end == other.grace_period_end
    }

    /// `after` is `self` with the fix `location` by `by_player` recorded as the current location.
    pub open spec fn records_location(
        self,
        after: TeamEntry,
        location: DetailedLocation,
        by_player: u64,
    ) -> bool {
        &&& self.same_but_locations(after)
        &&& after.current_location == Some(location)
        &&& after.location_sending_player == Some(by_player)
        &&& track_extended(self.locations@, after.locations@, location.minimal())
    }

    /// `after` is `self` with a new period ending at `now`: the current location closes the
    /// track, and the period covers the track since the last one.
    pub open spec fn opens_period(self, after: TeamEntry, now: TimeOfDay) -> bool {
        let n = self.periods@.len();
        let p = after.periods@.last();
        &&& after.locations@ == period_track(self.locations@, self.current_location)
        &&& after.periods@.len() == n + 1
        &&& after.periods@.take(n as int) == self.periods@
        &&& p.pictures@ == Seq::<u64>::empty()
        &&& p.location_start_index == next_period_start(self.periods@)
        &&& p.location_end_index == after.locations@.len() - 1
        &&& p.end_time == now
    }

    /// A new team of runners in the start zone of `config`, without points, players' locations,
    /// challenges or periods.
    pub fn new(
        name: String,
        players: Vec<u64>,
        discord_channel: Option<u64>,
        colour: Colour,
        config: Config,
    ) -> (t: TeamEntry)
        ensures
            t.name == name,
            t.picture is None,
            t.players == players,
            t.player_location_counts@ == Map::<u64, LocationCounts>::empty(),
            t.discord_channel == discord_channel,
            t.role == TeamRole::Runner,
            t.colour == colour,
            t.points == 0,
            t.bounty == 0,
            t.current_zone_id == config.start_zone,
            t.current_location is None,
            t.locations@ == Seq::<MinimalLocation>::empty(),
            t.location_sending_player is None,
            t.challenges@ == Seq::<InOpenChallenge>::empty(),
            t.periods@ == Seq::<Period>::empty(),
            t.grace_period_end is None,
    {
        TeamEntry {
            name,
            picture: None,
            players,
            player_location_counts: HashMap::new(),
            discord_channel,
            colour,
            challenges: Vec::new(),
            role: TeamRole::Runner,
            points: 0,
            bounty: 0,
            current_location: None,
            locations: Vec::new(),
            location_sending_player: None,
            periods: Vec::new(),
            current_zone_id: config.start_zone,
            grace_period_end: None,
        }
    }

    /// The id of the team's current period: the number of periods it completed.
    pub fn period_id(&self) -> (id: usize)
        ensures
            id == self.periods@.len(),
    {
        self.periods.len()
    }

    /// The team's current position, latitude and longitude as bit patterns of `f32`.
    pub fn location(&self) -> (r: Option<(u32, u32)>)
        ensures
            r == match self.current_location {
                Some(l) => Some((l.latitude, l.longitude)),
                None => None,
            },
    {
        match &self.current_location {
            Some(l) => Some((l.latitude, l.longitude)),
            None => None,
        }
    }

    /// `after` is `self` after the fix `location` sent by `by_player` came in, answered with
    /// `r`: the fix is taken where it is the first or replaces the current one, and the player's
    /// counts of sent and taken fixes are updated (wrapping at the end of `u32`).
    pub open spec fn takes_location(
        self,
        after: TeamEntry,
        location: DetailedLocation,
        by_player: u64,
        r: Option<DetailedLocation>,
    ) -> bool {
        let c = location_count(self.player_location_counts@, by_player);
        let replaces = match self.current_location {
            None => false,
            Some(prev) => accepts_location(prev, location),
        };
        let took = self.current_location is None || replaces;
        &&& after.player_location_counts@ == self.player_location_counts@.insert(
            by_player,
            LocationCounts {
                sent: c.sent.wrapping_add(1),
                taken: if replaces { c.taken.wrapping_add(1) } else { c.taken },
            },
        )
        &&& took ==> r == Some(location) && self.records_location(after, location, by_player)
        &&& !took ==> r is None && self.same_but_locations(after) && after.current_location
            == self.current_location && after.locations == self.locations
            && after.location_sending_player == self.location_sending_player
    }

    /// Takes a fix sent by `by_player` where it is the first or replaces the current one (see
    /// `accepts_location`), and returns it then. The player's counts of sent and taken fixes
    /// are updated either way (wrapping at the end of `u32`).
    pub fn add_location<E: GameEnv>(
        &mut self,
        location: DetailedLocation,
        by_player: u64,
        env: &E,
    ) -> (r: Option<DetailedLocation>)
        ensures
            old(self).takes_location(*final(self), location, by_player, r),
    {
        let c = match self.player_location_counts.get(&by_player) {
            Some(c) => *c,
            None => LocationCounts { sent: 0, taken: 0 },
        };
        self.player_location_counts.insert(
            by_player,
            LocationCounts { sent: c.sent.wrapping_add(1), taken: c.taken },
        );
        match self.current_location {
            None => Some(self.definitely_add_location(location, by_player, env)),
            Some(prev) => {
                let waited = location.timestamp.wrapping_sub(prev.timestamp);
                let a = location.accuracy as u32;
                let b = prev.accuracy as u32;
                if location.accuracy < 20 || a < b || (waited > 15 && 2 * a < 3 * b) || waited > 30 {
                    self.location_sending_player = Some(by_player);
                    self.player_location_counts.insert(
                        by_player,
                        LocationCounts { sent: c.sent.wrapping_add(1), taken: c.taken.wrapping_add(1) },
                    );
                    assert(self.player_location_counts@ =~= old(self).player_location_counts@.insert(
                        by_player,
                        LocationCounts { sent: c.sent.wrapping_add(1), taken: c.taken.wrapping_add(1) },
                    ));
                    return Some(self.definitely_add_location(location, by_player, env));
                }
                None
            },
        }
    }

    /// Makes `location` the current location, sent by `by_player`, and adds it to the track
    /// where the track is empty, or where it is more than 10 s younger than the last point and
    /// the environment finds them more than 20 m apart.
    fn definitely_add_location<E: GameEnv>(
        &mut self,
        location: DetailedLocation,
        by_player: u64,
        env: &E,
    ) -> (r: DetailedLocation)
        ensures
            r == location,
            old(self).records_location(*final(self), location, by_player),
            final(self).player_location_counts == old(self).player_location_counts,
    {
        self.current_location = Some(location);
        self.location_sending_player = Some(by_player);
        let new_loc = location.to_minimal();
        let n = self.locations.len();
        if n == 0 {
            self.locations.push(new_loc);
            assert(self.locations@ =~= seq![new_loc]);
        } else {
            let old_loc = self.locations[n - 1];
            if env.farther_than(
                (old_loc.latitude, old_loc.longitude),
                (new_loc.latitude, new_loc.longitude),
                20,
            ) && new_loc.timestamp.wrapping_sub(old_loc.timestamp) > 10 {
                self.locations.push(new_loc);
            }
        }
        location
    }

    /// Closes the current period with context `context` at `now`: the current location is added
    /// to the track (the origin where the track stays empty), and the period covers the track
    /// since the end of the last period.
    fn new_period(&mut self, context: PeriodContext, now: TimeOfDay)
        ensures
            old(self).opens_period(*final(self), now),
            final(self).periods@.last().context == context,
            final(self).same_but_locations_and_periods(*old(self)),
            final(self).current_location == old(self).current_location,
            final(self).location_sending_player == old(self).location_sending_player,
            final(self).player_location_counts == old(self).player_location_counts,
    {
        if let Some(current) = &self.current_location {
            self.locations.push(current.to_minimal());
        }
        if self.locations.len() == 0 {
            self.locations.push(MinimalLocation { latitude: 0, longitude: 0, timestamp: 0 });
            assert(self.locations@ =~= seq![origin()]);
        }
        let start = match self.periods.last() {
            Some(p) => p.location_end_index.wrapping_add(1),
            None => 0,
        };
        let end = self.locations.len() - 1;
        let ghost before = self.periods@;
        self.periods.push(
            Period {
                context,
                pictures: Vec::new(),
                location_start_index: start,
                location_end_index: end,
                end_time: now,
            },
        );
        assert(self.periods@.take(before.len() as int) =~= before);
    }

    /// Everything but the location data and the periods is the same in `self` and `other`.
    pub open spec fn same_but_locations_and_periods(self, other: TeamEntry) -> bool {
        &&& self.name == other.name
        &&& self.picture == other.picture
        &&& self.players == other.players
        &&& self.discord_channel == other.discord_channel
        &&& self.role == other.role
        &&& self.colour == other.colour
        &&& self.points == other.points
        &&& self.bounty == other.bounty
        &&& self.current_zone_id == other.current_zone_id
        &&& self.challenges == other.challenges
        &&& self.grace_period_end == other.grace_period_end
    }


    /// `after` is `self` after it was caught by team `catcher_id` at `now`: catchers without
    /// challenges, grace period or bounty, with a period of being caught with its bounty ended.
    pub open spec fn is_caught_as(self, after: TeamEntry, catcher_id: usize, now: TimeOfDay) -> bool {
        &&& after.grace_period_end is None
        &&& after.challenges@ == Seq::<InOpenChallenge>::empty()
        &&& after.role == TeamRole::Catcher
        &&& after.bounty == 0
        &&& self.opens_period(after, now)
        &&& after.periods@.last().context == (PeriodContext::Caught {
            catcher_team: catcher_id,
            bounty: self.bounty,
        })
        &&& after.name == self.name
        &&& after.picture == self.picture
        &&& after.players == self.players
        &&& after.discord_channel == self.discord_channel
        &&& after.colour == self.colour
        &&& after.points == self.points
        &&& after.current_zone_id == self.current_zone_id
        &&& after.current_location == self.current_location
        &&& after.location_sending_player == self.location_sending_player
        &&& after.player_location_counts == self.player_location_counts
    }

    /// `after` is `self` after it caught team `caught_id` with bounty `bounty` at `now` (`time`
    /// of day), being team `catcher_id` of the session of `context`: runners with new
    /// challenges (where they can be generated), in a grace period whose timer has id `hook_id`,
    /// with the bounty added to its points, no bounty, and a period of catching ended.
    pub open spec fn has_caught_as(
        self,
        after: TeamEntry,
        bounty: u64,
        caught_id: usize,
        catcher_id: usize,
        context: SessionContext,
        hook_id: u64,
        now: Moment,
        time: TimeOfDay,
    ) -> bool {
        &&& after.grace_period_end == Some(
            TimerHook {
                payload: InternEngineCommand::TeamLeftGracePeriod {
                    session_id: context.session_id,
                    team_id: catcher_id,
                },
                end_time: moment_after(now, context.config.grace_period_duration),
                id: hook_id,
            },
        )
        &&& after.role == TeamRole::Runner
        &&& after.points == self.points.wrapping_add(bounty)
        &&& after.bounty == 0
        &&& self.opens_period(after, time)
        &&& after.periods@.last().context == (PeriodContext::Catcher {
            caught_team: caught_id,
            bounty,
        })
        &&& after.challenges == self.challenges || stems_from_store(
            after.challenges@,
            *context.engine_context.challenge_db,
        )
        &&& can_generate(self.current_zone_id, context) ==> stems_from_store(
            after.challenges@,
            *context.engine_context.challenge_db,
        )
        &&& after.name == self.name
        &&& after.picture == self.picture
        &&& after.players == self.players
        &&& after.discord_channel == self.discord_channel
        &&& after.colour == self.colour
        &&& after.current_zone_id == self.current_zone_id
        &&& after.current_location == self.current_location
        &&& after.location_sending_player == self.location_sending_player
        &&& after.player_location_counts == self.player_location_counts
    }

    /// `after` is `self` after it completed its challenge at index `id` at `time`, `c` being
    /// that challenge and `request` what cancels the grace period's timer: no grace period, the
    /// challenge's points added, a period of completing it ended, in the challenge's zone if it
    /// has one, with new challenges where they can be generated. The bounty grows by a share that
    /// the environment computes, which is not stated.
    pub open spec fn completes_as(
        self,
        after: TeamEntry,
        id: usize,
        context: SessionContext,
        time: TimeOfDay,
        c: InOpenChallenge,
        request: Option<RuntimeRequest>,
    ) -> bool {
        let done = self.challenges@[id as int];
        &&& c.same_as(done)
        &&& request == match self.grace_period_end {
            Some(h) => Some(RuntimeRequest::CancelTimer(h.id)),
            None => None,
        }
        &&& after.grace_period_end is None
        &&& after.points == self.points.wrapping_add(done.points)
        &&& self.opens_period(after, time)
        &&& after.periods@.last().context matches PeriodContext::CompletedChallenge {
            title,
            description,
            zone,
            points,
            id: cid,
        } && title@ == done.title@ && description@ == done.description@ && zone == done.zone
            && points == done.points && cid == done.id
        &&& after.current_zone_id == match done.zone {
            Some(z) => z,
            None => self.current_zone_id,
        }
        &&& after.challenges == self.challenges || stems_from_store(
            after.challenges@,
            *context.engine_context.challenge_db,
        )
        &&& can_generate(after.current_zone_id, context) ==> stems_from_store(
            after.challenges@,
            *context.engine_context.challenge_db,
        )
        &&& after.role == self.role
        &&& after.name == self.name
        &&& after.picture == self.picture
        &&& after.players == self.players
        &&& after.discord_channel == self.discord_channel
        &&& after.colour == self.colour
        &&& after.current_location == self.current_location
        &&& after.location_sending_player == self.location_sending_player
        &&& after.player_location_counts == self.player_location_counts
    }

    /// The team was caught by the team `catcher_id` at `now`: it becomes a catcher, loses its
    /// challenges, grace period and bounty, and a period of being caught with its bounty ends.
    pub fn be_caught(&mut self, catcher_id: usize, now: TimeOfDay)
        ensures
            old(self).is_caught_as(*final(self), catcher_id, now),
    {
        self.grace_period_end = None;
        self.challenges.clear();
        self.role = TeamRole::Catcher;
        let bounty = self.bounty;
        self.new_period(PeriodContext::Caught { catcher_team: catcher_id, bounty }, now);
        self.bounty = 0;
    }

    /// `after` is `self` reset for a new game of `context` (see `reset`).
    pub open spec fn reset_as(self, after: TeamEntry, context: SessionContext) -> bool {
        &&& after == (TeamEntry {
            challenges: after.challenges,
            periods: after.periods,
            locations: after.locations,
            role: TeamRole::Runner,
            points: 0,
            bounty: 0,
            current_zone_id: after.current_zone_id,
            ..self
        })
        &&& after.challenges@ == Seq::<InOpenChallenge>::empty()
        &&& after.periods@ == Seq::<Period>::empty()
        &&& after.locations@ == Seq::<MinimalLocation>::empty()
        &&& has_zone_number(*context.engine_context.zone_db, context.config.start_zone)
            ==> is_first_zone_numbered(
            *context.engine_context.zone_db,
            context.config.start_zone,
            after.current_zone_id,
        )
        &&& !has_zone_number(*context.engine_context.zone_db, context.config.start_zone)
            ==> after.current_zone_id == self.current_zone_id
    }

    /// Resets the team for a new game: no challenges, periods, track, points or bounty, a runner
    /// again, in the first zone with the configured start zone number. Where there is no such
    /// zone, the zone stays as it was and `NotFound` is returned; the rest is reset either way.
    pub fn reset(&mut self, context: &SessionContext) -> (r: Result<(), Error>)
        ensures
            old(self).reset_as(*final(self), *context),
            *final(self) == (TeamEntry {
                challenges: final(self).challenges,
                periods: final(self).periods,
                locations: final(self).locations,
                role: TeamRole::Runner,
                points: 0,
                bounty: 0,
                current_zone_id: final(self).current_zone_id,
                ..*old(self)
            }),
            final(self).challenges@ == Seq::<InOpenChallenge>::empty(),
            final(self).periods@ == Seq::<Period>::empty(),
            final(self).locations@ == Seq::<MinimalLocation>::empty(),
            r is Ok <==> has_zone_number(*context.engine_context.zone_db, context.config.start_zone),
            r is Ok ==> is_first_zone_numbered(
                *context.engine_context.zone_db,
                context.config.start_zone,
                final(self).current_zone_id,
            ),
            r is Err ==> final(self).current_zone_id == old(self).current_zone_id,
            r is Err ==> (r matches Err(Error::NotFound(m)) && m@ == "config start zone"@),
    {
        self.challenges = Vec::new();
        self.periods = Vec::new();
        self.locations = Vec::new();
        self.role = TeamRole::Runner;
        self.points = 0;
        self.bounty = 0;
        let start = context.config.start_zone;
        let is_start = |z: &ZoneEntry| -> (b: bool)
            ensures
                b <==> z.zone == start,
            { z.zone == start };
        match context.engine_context.zone_db.find(is_start) {
            Some(e) => {
                self.current_zone_id = e.id;
                Ok(())
            },
            None => {
                proof {
                    let zones = *context.engine_context.zone_db;
                    if has_zone_number(zones, start) {
                        let i = choose|i: int|
                            0 <= i < zones@.len() && zones@[i] is Some && slot_value(zones@[i]).zone
                                == start;
                        assert(zones@[i] is Some);
                    }
                }
                Err(Error::NotFound(String::from_str("config start zone")))
            },
        }
    }


    /// `after` is `self` started as catchers for a game of `context` (see `start_catcher`).
    pub open spec fn started_as_catcher(self, after: TeamEntry, context: SessionContext) -> bool {
        &&& after.role == TeamRole::Catcher
        &&& after.points == context.config.bounty_start_points
        &&& after.bounty == 0
        &&& is_first_zone_numbered(
            *context.engine_context.zone_db,
            context.config.start_zone,
            after.current_zone_id,
        )
        &&& after.challenges@ == Seq::<InOpenChallenge>::empty()
        &&& after.periods@ == Seq::<Period>::empty()
        &&& after.locations@ == Seq::<MinimalLocation>::empty()
        &&& after == (TeamEntry {
            challenges: after.challenges,
            periods: after.periods,
            locations: after.locations,
            role: after.role,
            points: after.points,
            bounty: after.bounty,
            current_zone_id: after.current_zone_id,
            ..self
        })
    }

    /// `after` is `self` started as runners for a game of `context` (see `start_runner`).
    pub open spec fn started_as_runner(self, after: TeamEntry, context: SessionContext) -> bool {
        &&& after.role == TeamRole::Runner
        &&& after.points == 0
        &&& after.bounty == 0
        &&& is_first_zone_numbered(
            *context.engine_context.zone_db,
            context.config.start_zone,
            after.current_zone_id,
        )
        &&& after.challenges@ == Seq::<InOpenChallenge>::empty() || stems_from_store(
            after.challenges@,
            *context.engine_context.challenge_db,
        )
        &&& can_generate(after.current_zone_id, context) ==> stems_from_store(
            after.challenges@,
            *context.engine_context.challenge_db,
        )
        &&& after.periods@ == Seq::<Period>::empty()
        &&& after.locations@ == Seq::<MinimalLocation>::empty()
        &&& after == (TeamEntry {
            challenges: after.challenges,
            periods: after.periods,
            locations: after.locations,
            role: after.role,
            points: after.points,
            bounty: after.bounty,
            current_zone_id: after.current_zone_id,
            ..self
        })
    }

    /// Resets the team (see `reset`) and has it start as runners with new challenges.
    pub fn start_runner<E: GameEnv>(&mut self, context: &SessionContext, env: &E) -> (r: Result<
        (),
        Error,
    >)
        ensures
            r is Ok <==> has_zone_number(*context.engine_context.zone_db, context.config.start_zone),
            r is Err ==> (r matches Err(Error::NotFound(m)) && m@ == "config start zone"@),
            r is Ok ==> old(self).started_as_runner(*final(self), *context),
            final(self).periods@ == Seq::<Period>::empty(),
            final(self).locations@ == Seq::<MinimalLocation>::empty(),
            final(self).role == TeamRole::Runner,
            final(self).points == 0,
            final(self).bounty == 0,
            r is Ok ==> is_first_zone_numbered(
                *context.engine_context.zone_db,
                context.config.start_zone,
                final(self).current_zone_id,
            ),
            r is Ok ==> final(self).challenges@ == Seq::<InOpenChallenge>::empty() || stems_from_store(
                final(self).challenges@,
                *context.engine_context.challenge_db,
            ),
            r is Ok && can_generate(final(self).current_zone_id, *context) ==> stems_from_store(
                final(self).challenges@,
                *context.engine_context.challenge_db,
            ),
            r is Err ==> final(self).challenges@ == Seq::<InOpenChallenge>::empty(),
            final(self).name == old(self).name,
            final(self).picture == old(self).picture,
            final(self).players == old(self).players,
            final(self).discord_channel == old(self).discord_channel,
            final(self).colour == old(self).colour,
            final(self).current_location == old(self).current_location,
            final(self).grace_period_end == old(self).grace_period_end,
    {
        self.reset(context)?;
        self.generate_challenges(context, env);
        Ok(())
    }

    /// Resets the team (see `reset`) and has it start as catchers with the configured starting
    /// points.
    pub fn start_catcher(&mut self, context: &SessionContext) -> (r: Result<(), Error>)
        ensures
            r is Ok <==> has_zone_number(*context.engine_context.zone_db, context.config.start_zone),
            r is Err ==> (r matches Err(Error::NotFound(m)) && m@ == "config start zone"@),
            r is Ok ==> old(self).started_as_catcher(*final(self), *context),
            r is Ok ==> final(self).role == TeamRole::Catcher && final(self).points
                == context.config.bounty_start_points && is_first_zone_numbered(
                *context.engine_context.zone_db,
                context.config.start_zone,
                final(self).current_zone_id,
            ),
            r is Err ==> final(self).role == TeamRole::Runner && final(self).points == 0,
            final(self).challenges@ == Seq::<InOpenChallenge>::empty(),
            final(self).periods@ == Seq::<Period>::empty(),
            final(self).locations@ == Seq::<MinimalLocation>::empty(),
            final(self).bounty == 0,
            final(self).name == old(self).name,
            final(self).picture == old(self).picture,
            final(self).players == old(self).players,
            final(self).discord_channel == old(self).discord_channel,
            final(self).colour == old(self).colour,
            final(self).current_location == old(self).current_location,
            final(self).grace_period_end == old(self).grace_period_end,
    {
        self.reset(context)?;
        self.role = TeamRole::Catcher;
        self.points = context.config.bounty_start_points;
        Ok(())
    }

    /// Replaces the team's challenges by new ones for its zone, points and completed challenges
    /// (see `generate_for`). Where that cannot be done (the zone, the centre zone or any stored
    /// challenge missing while challenges are asked for, or period lengths beyond what durations
    /// hold), the team stays as it was.
    pub fn generate_challenges<E: GameEnv>(&mut self, context: &SessionContext, env: &E)
        ensures
            *final(self) == (TeamEntry { challenges: final(self).challenges, ..*old(self) }),
            final(self).challenges == old(self).challenges || stems_from_store(
                final(self).challenges@,
                *context.engine_context.challenge_db,
            ),
            can_generate(old(self).current_zone_id, *context) ==> stems_from_store(
                final(self).challenges@,
                *context.engine_context.challenge_db,
            ),
            can_generate(old(self).current_zone_id, *context) ==> (final(self).challenges@.len()
                == context.config.num_challenges || (context.config.num_challenges == 0
                && final(self).challenges@.len() == 1)),
            can_generate(old(self).current_zone_id, *context) ==> generated_for(
                final(self).challenges@,
                old(self).current_zone_id,
                completed_ids(old(self).periods@),
                *context.engine_context.zone_db,
                *context.engine_context.challenge_db,
                context.config,
            ),
            final(self).challenges == old(self).challenges || generated_for(
                final(self).challenges@,
                old(self).current_zone_id,
                completed_ids(old(self).periods@),
                *context.engine_context.zone_db,
                *context.engine_context.challenge_db,
                context.config,
            ),
            ({
                let zones = *context.engine_context.zone_db;
                ||| !period_lengths_fit(context.config)
                ||| zones.spec_get(old(self).current_zone_id as int) is None
                ||| !has_zone_number(zones, context.config.centre_zone)
                ||| !has_live_challenge(*context.engine_context.challenge_db) && context.config.num_challenges > 0
            }) ==> *final(self) == *old(self),
    {
        if !period_lengths_fit_in(&context.config) {
            return ;
        }
        let completed = completed_challenge_ids(&self.periods);
        let generated = generate_for(
            self.current_zone_id,
            self.points,
            &completed,
            context.engine_context.zone_db,
            context.engine_context.challenge_db,
            &context.config,
            context.top_team_points,
            env,
        );
        if let Some(v) = generated {
            self.challenges = v;
        }
    }

    /// The team caught team `caught_id` with bounty `bounty` at `now` (`time` of day): it gets
    /// new challenges, becomes runners in a grace period that ends after the configured
    /// duration, collects the bounty (wrapping at the end of `u64`), and a period of catching
    /// ends. Returns the request that starts the grace period's timer.
    pub fn have_caught<E: GameEnv>(
        &mut self,
        bounty: u64,
        caught_id: usize,
        catcher_id: usize,
        context: &SessionContext,
        timers: &mut TimerTracker,
        env: &E,
        now: Moment,
        time: TimeOfDay,
    ) -> (r: RuntimeRequest)
        ensures
            final(timers).current_id == next_timer_id(old(timers).current_id),
            r matches RuntimeRequest::CreateAlarm { time: t, payload, id } && t == moment_after(
                now,
                context.config.grace_period_duration,
            ) && id == final(timers).current_id && payload == (InternEngineCommand::TeamLeftGracePeriod {
                session_id: context.session_id,
                team_id: catcher_id,
            }),
            old(self).has_caught_as(
                *final(self),
                bounty,
                caught_id,
                catcher_id,
                *context,
                final(timers).current_id,
                now,
                time,
            ),
    {
        self.generate_challenges(context, env);
        self.role = TeamRole::Runner;
        let (_, timer) = timers.timer(
            context.config.grace_period_duration,
            InternEngineCommand::TeamLeftGracePeriod {
                session_id: context.session_id,
                team_id: catcher_id,
            },
            now,
        );
        let request = RuntimeRequest::CreateAlarm {
            time: timer.end_time,
            payload: InternEngineCommand::TeamLeftGracePeriod {
                session_id: context.session_id,
                team_id: catcher_id,
            },
            id: timer.id,
        };
        self.grace_period_end = Some(timer);
        self.points = self.points.wrapping_add(bounty);
        self.bounty = 0;
        self.new_period(PeriodContext::Catcher { caught_team: caught_id, bounty }, time);
        request
    }

    /// The team completed its challenge at index `id` at `time`: it ends its grace period,
    /// gains the challenge's points and a share of them as bounty (computed by the environment;
    /// both wrapping at the end of `u64`), a period of completing the challenge ends, it moves
    /// to the challenge's zone if it has one, and it gets new challenges. Returns the completed
    /// challenge and the request that cancels the grace period's timer, if one was running.
    /// Where there is no challenge at `id`, nothing changes and `NotFound` is returned.
    pub fn complete_challenge<E: GameEnv>(
        &mut self,
        id: usize,
        context: &SessionContext,
        env: &E,
        time: TimeOfDay,
    ) -> (r: Result<(InOpenChallenge, Option<RuntimeRequest>), Error>)
        ensures
            r is Err <==> id >= old(self).challenges@.len(),
            r is Err ==> *final(self) == *old(self),
            r is Err ==> (r matches Err(Error::NotFound(m)) && m@ == "challenge with id/index "@
                + decimal(id as u64)),
            r matches Ok((c, request)) ==> old(self).completes_as(*final(self), id, *context, time, c, request),
            r is Ok ==> adds_bounty_share(
                env,
                old(self).bounty,
                final(self).bounty,
                old(self).challenges@[id as int].points,
                context.config,
            ),
    {
        if id >= self.challenges.len() {
            return Err(Error::NotFound(with_number("challenge with id/index ", id as u64)));
        }
        let completed = self.challenges[id].duplicate();
        let request = match &self.grace_period_end {
            Some(hook) => Some(hook.cancel_request()),
            None => None,
        };
        self.grace_period_end = None;
        self.points = self.points.wrapping_add(completed.points);
        let share = env.bounty_share(completed.points, &context.config);
        let ghost bounty_before = self.bounty;
        self.bounty = self.bounty.wrapping_add(share);
        assert(adds_bounty_share(env, bounty_before, self.bounty, completed.points, context.config));
        self.new_period(
            PeriodContext::CompletedChallenge {
                title: completed.title.clone(),
                description: completed.description.clone(),
                zone: completed.zone,
                points: completed.points,
                id: completed.id,
            },
            time,
        );
        if let Some(zone) = completed.zone {
            self.current_zone_id = zone;
        }
        self.generate_challenges(context, env);
        Ok((completed, request))
    }
}

} // verus!
