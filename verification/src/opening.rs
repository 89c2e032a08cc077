//! Opening a stored challenge for a team: choosing its zone and its repetitions, the points that
//! need no floating point, and the title, description and action the team sees.
use crate::challenge::{closest_zone_of, ChallengeAction, ChallengeEntry, InOpenChallenge};
use crate::config::Config;
use crate::entries::ZoneEntry;
use crate::env::GameEnv;
use crate::generation::MAX_DURATION_MINUTES;
use crate::mirror::{DBEntry, DBMirror};
use crate::model::{ChallengeActionEntry, ChallengeType, Moment, RandomPlaceType, Repetitions};
use crate::text::{decimal, decimal_text};
use crate::timer::moment_after;
use crate::world::{random_between, random_index};
use vstd::prelude::*;

verus! {

broadcast use vstd::std_specs::hash::group_hash_axioms;

/// `s` with every occurrence of `pat` replaced by `with`, left to right, as `str::replace` does
/// for a pattern that is not empty.
pub open spec fn replaced(s: Seq<char>, pat: Seq<char>, with: Seq<char>) -> Seq<char>
    decreases s.len(),
{
    if s.len() == 0 || pat.len() == 0 {
        s
    } else if pat.len() <= s.len() && s.take(pat.len() as int) == pat {
        with + replaced(s.skip(pat.len() as int), pat, with)
    } else {
        seq![s[0]] + replaced(s.skip(1), pat, with)
    }
}

/// Whether `pat` occurs in `s` at character position `i`.
fn occurs_at(s: &str, i: usize, pat: &str) -> (b: bool)
    requires
        i <= s@.len(),
    ensures
        b == (i + pat@.len() <= s@.len() && s@.subrange(i as int, i + pat@.len()) == pat@),
{
    let n = s.unicode_len();
    let m = pat.unicode_len();
    if m > n - i {
        return false;
    }
    let mut k: usize = 0;
    while k < m
        invariant
            n == s@.len(),
            m == pat@.len(),
            i + m <= n,
            k <= m,
            forall|j: int| 0 <= j < k ==> s@[i + j] == pat@[j],
        decreases m - k,
    {
        if s.get_char(i + k) != pat.get_char(k) {
            assert(s@.subrange(i as int, i + m)[k as int] != pat@[k as int]);
            return false;
        }
        k = k + 1;
    }
    assert(s@.subrange(i as int, i + m) =~= pat@);
    true
}

/// `s` with every occurrence of `pat` replaced by `with` (see `replaced`).
pub fn replace_all(s: &str, pat: &str, with: &str) -> (r: String)
    requires
        pat@.len() > 0,
    ensures
        r@ == replaced(s@, pat@, with@),
{
    let n = s.unicode_len();
    let m = pat.unicode_len();
    let mut out = String::new();
    let mut i: usize = 0;
    assert(s@.skip(0) =~= s@);
    while i < n
        invariant
            n == s@.len(),
            m == pat@.len(),
            m > 0,
            i <= n,
            out@ + replaced(s@.skip(i as int), pat@, with@) == replaced(s@, pat@, with@),
        decreases n - i,
    {
        let ghost rest = s@.skip(i as int);
        if occurs_at(s, i, pat) {
            assert(rest.take(m as int) =~= s@.subrange(i as int, i + m));
            assert(rest.skip(m as int) =~= s@.skip(i + m));
            out.append(with);
            i = i + m;
        } else {
            assert(!(m <= rest.len() && rest.take(m as int) == pat@)) by {
                if m <= rest.len() {
                    assert(rest.take(m as int) =~= s@.subrange(i as int, i + m));
                }
            }
            assert(rest.skip(1) =~= s@.skip(i + 1));
            let c = s.substring_char(i, i + 1);
            assert(c@ =~= seq![rest[0]]);
            out.append(c);
            i = i + 1;
        }
    }
    assert(s@.skip(n as int) =~= Seq::<char>::empty());
    out
}

/// The zone `id` is among `allowed`, where zones are restricted at all.
pub open spec fn zone_allowed(allowed: Option<Vec<u64>>, id: u64) -> bool {
    match allowed {
        None => true,
        Some(v) => v@.contains(id),
    }
}

/// The zone `id` can be read, is allowed and, for `s_bahn_only`, is an S-Bahn zone.
pub open spec fn random_candidate(
    zones: DBMirror<ZoneEntry>,
    allowed: Option<Vec<u64>>,
    s_bahn_only: bool,
    id: u64,
) -> bool {
    &&& zones.spec_get(id as int) matches Some(z)
    &&& zone_allowed(allowed, id)
    &&& (s_bahn_only ==> z.s_bahn_zone)
}

/// `r` is a zone picked at random among the candidates, `None` only where there is none.
pub open spec fn picks_randomly(
    r: Option<u64>,
    zones: DBMirror<ZoneEntry>,
    allowed: Option<Vec<u64>>,
    s_bahn_only: bool,
) -> bool {
    match r {
        Some(id) => random_candidate(zones, allowed, s_bahn_only, id),
        None => forall|id: u64| !random_candidate(zones, allowed, s_bahn_only, id),
    }
}

/// The zone of the challenge, where it needs one: a random one for a random place or a
/// zoneable challenge where zoneables get a zone, the first of its zones for a Kaff challenge,
/// the closest of its zones from the team's zone for a place-specific one, and the centre for a
/// ZKaff challenge; `None` where the zone cannot be found.
pub open spec fn zone_choice(
    c: ChallengeEntry,
    r: Option<u64>,
    zone_zoneables: bool,
    centre_id: u64,
    current: ZoneEntry,
    allowed: Option<Vec<u64>>,
    zones: DBMirror<ZoneEntry>,
) -> bool {
    match c.random_place {
        Some(RandomPlaceType::Zone) => picks_randomly(r, zones, allowed, false),
        Some(RandomPlaceType::SBahnZone) => picks_randomly(r, zones, allowed, true),
        None => match c.kind {
            ChallengeType::Kaff => r == if c.zone@.len() > 0 && zones.spec_get(c.zone@[0] as int) is Some {
                Some(c.zone@[0])
            } else {
                None
            },
            ChallengeType::Ortsspezifisch => r == match closest_zone_of(c.zone@, current.minutes_to@) {
                Some(z) => if zones.spec_get(z as int) is Some {
                    Some(z)
                } else {
                    None
                },
                None => None,
            },
            ChallengeType::ZKaff => r == Some(centre_id),
            ChallengeType::Zoneable => if zone_zoneables {
                picks_randomly(r, zones, allowed, false)
            } else {
                r is None
            },
            _ => r is None,
        },
    }
}

/// The zone used for a ZKaff challenge without a random place is the centre; otherwise the zone
/// chosen is read from the store.
pub open spec fn uses_centre(c: ChallengeEntry) -> bool {
    c.random_place is None && c.kind == ChallengeType::ZKaff
}

/// A number of repetitions drawn from the half-open range of the challenge, 0 where it is empty.
pub open spec fn reps_ok(r: Repetitions, reps: u16) -> bool {
    if r.start < r.end {
        r.start <= reps < r.end
    } else {
        reps == 0
    }
}

/// The points of the challenge that need no floating point: its additional points, its kaffness
/// and grade, its walking and stationary minutes, its repetitions, for ZKaff challenges the
/// dead end, station distance and time to the main station, and for a zoneable challenge that
/// got a zone the zoneable points; each product and sum wraps as a 64 bit integer. A station
/// distance divisor of 0 adds no station distance points.
pub open spec fn base_points(c: ChallengeEntry, config: Config, reps: u16, zone_zoneables: bool) -> i64 {
    let k = match c.kaffskala {
        Some(x) => (x as i64).wrapping_mul(config.points_per_kaffness as i64),
        None => 0i64,
    };
    let g = match c.grade {
        Some(x) => (x as i64).wrapping_mul(config.points_per_grade as i64),
        None => 0i64,
    };
    let walking = (c.walking_time as i64).wrapping_mul(config.points_per_walking_minute as i64);
    let stationary = (c.stationary_time as i64).wrapping_mul(config.points_per_stationary_minute as i64);
    let repeated = (reps as i64).wrapping_mul(c.points_per_rep as i64);
    let kind_points = if c.kind == ChallengeType::ZKaff {
        let dead_end = if c.dead_end {
            config.zkaff_points_for_dead_end as i64
        } else {
            0i64
        };
        let distance = if config.zkaff_station_distance_divisor == 0 {
            0i64
        } else {
            ((c.station_distance as u64) / config.zkaff_station_distance_divisor) as i64
        };
        let to_hb = (c.time_to_hb as i64).wrapping_mul(config.zkaff_points_per_minute_to_hb as i64);
        dead_end.wrapping_add(distance).wrapping_add(to_hb)
    } else if c.kind == ChallengeType::Zoneable && zone_zoneables {
        config.points_for_zoneable as i64
    } else {
        0i64
    };
    (c.additional_points as i64).wrapping_add(k).wrapping_add(g).wrapping_add(walking).wrapping_add(
        stationary,
    ).wrapping_add(repeated).wrapping_add(kind_points)
}

/// The title before zone and repetitions are filled in: the title of the challenge, else one
/// made from its place, else the default title.
pub open spec fn plain_title(c: ChallengeEntry, config: Config) -> Seq<char> {
    match c.title {
        Some(t) => t@,
        None => match c.place {
            Some(p) => if c.kind == ChallengeType::ZKaff {
                "Züridrift nach "@ + p@
            } else {
                "Usflug uf "@ + p@
            },
            None => config.default_challenge_title@,
        },
    }
}

/// The description before zone and repetitions are filled in: the description of the
/// challenge, else one made from its place, else the default description.
pub open spec fn plain_description(c: ChallengeEntry, config: Config) -> Seq<char> {
    match c.description {
        Some(d) => d@,
        None => match c.place {
            Some(p) => if c.kind == ChallengeType::ZKaff {
                "Gönd zu de Station "@ + p@ + " in Züri."@
            } else {
                "Gönd nach "@ + p@ + "."@
            },
            None => config.default_challenge_description@,
        },
    }
}

/// `s` with `%z` and `%s` replaced by the zone number, where there is a zone.
pub open spec fn zone_filled(s: Seq<char>, zone_number: Option<u64>) -> Seq<char> {
    match zone_number {
        Some(n) => replaced(replaced(s, "%z"@, decimal(n)), "%s"@, decimal(n)),
        None => s,
    }
}

/// The title the team sees: marked where the team may not get off, with zone number and
/// repetitions filled in.
pub open spec fn title_text(c: ChallengeEntry, config: Config, zone_number: Option<u64>, reps: u16) -> Seq<char> {
    let t = if c.no_disembark {
        "🛤️ "@ + plain_title(c, config)
    } else {
        plain_title(c, config)
    };
    replaced(zone_filled(t, zone_number), "%r"@, decimal(reps as u64))
}

/// The description the team sees: for a zoneable challenge that got a zone, a warning names the
/// zone; zone number and repetitions are filled in.
pub open spec fn description_text(
    c: ChallengeEntry,
    config: Config,
    zone_number: Option<u64>,
    zone_zoneables: bool,
    reps: u16,
) -> Seq<char> {
    let d = plain_description(c, config);
    let d = match zone_number {
        Some(n) => if c.kind == ChallengeType::Zoneable && zone_zoneables {
            d + " ⚠️ Damit ihr Pünkt überchömed, mached das i de Zone "@ + decimal(n) + "."@
        } else {
            d
        },
        None => d,
    };
    replaced(zone_filled(d, zone_number), "%r"@, decimal(reps as u64))
}

/// The moment `minutes` minutes after `now`, kept within the range of moments.
pub open spec fn minutes_after(now: Moment, minutes: u64) -> Moment {
    if minutes <= MAX_DURATION_MINUTES as u64 {
        moment_after(now, (minutes * 60000) as i64)
    } else {
        i64::MAX
    }
}

/// The action of the open challenge: a stored trap or a stored wait becomes one that ends the
/// given minutes (else as many minutes as repetitions) after `now`.
pub open spec fn action_opened(
    a: Option<ChallengeAction>,
    stored: Option<ChallengeActionEntry>,
    reps: u16,
    now: Moment,
) -> bool {
    match stored {
        None => a is None,
        Some(ChallengeActionEntry::UncompletableMinutes(m)) => a == Some(
            ChallengeAction::UncompletableMinutes(
                minutes_after(
                    now,
                    match m {
                        Some(x) => x,
                        None => reps as u64,
                    },
                ),
            ),
        ),
        Some(ChallengeActionEntry::Trap { stuck_minutes, catcher_message }) => a matches Some(
            ChallengeAction::Trap { completable_after, catcher_message: msg },
        ) && completable_after == minutes_after(
            now,
            match stuck_minutes {
                Some(x) => x,
                None => reps as u64,
            },
        ) && match (msg, catcher_message) {
            (None, None) => true,
            (Some(x), Some(y)) => x@ == y@,
            _ => false,
        },
    }
}

/// `o` is the challenge `c` opened under id `id` with zone `zone` (id and zone number), `reps`
/// repetitions and `points` points at `now`.
pub open spec fn opened_as(
    o: InOpenChallenge,
    c: ChallengeEntry,
    id: u64,
    zone: Option<(u64, u64)>,
    zone_zoneables: bool,
    reps: u16,
    points: u64,
    now: Moment,
    config: Config,
) -> bool {
    let number = match zone {
        Some(z) => Some(z.1),
        None => None,
    };
    &&& o.id == id
    &&& o.zone == match zone {
        Some(z) => Some(z.0),
        None => None,
    }
    &&& o.points == points
    &&& o.title@ == title_text(c, config, number, reps)
    &&& o.description@ == description_text(c, config, number, zone_zoneables, reps)
    &&& action_opened(o.action, c.action, reps, now)
}

fn minutes_after_exec(now: Moment, minutes: u64) -> (m: Moment)
    ensures
        m == minutes_after(now, minutes),
{
    if minutes <= MAX_DURATION_MINUTES as u64 {
        let d: i64 = (minutes * 60000) as i64;
        match now.checked_add(d) {
            Some(t) => t,
            None => i64::MAX,
        }
    } else {
        i64::MAX
    }
}

/// The travel minutes from the zone `current` to the zone with id `zone_id`, 0 where unknown.
pub open spec fn travel_minutes(current: ZoneEntry, zone_id: u64) -> u64 {
    if current.minutes_to@.contains_key(zone_id) {
        current.minutes_to@[zone_id]
    } else {
        0
    }
}

/// `points` are the points (cut to `u64`) that the environment may calculate for challenge `c`
/// with the points `base` that need no floating point, the zone `zone` with `travel` minutes to
/// it, `reps` repetitions and a team `points_to_top` behind the leader.
pub open spec fn points_said<E: GameEnv>(
    env: &E,
    c: ChallengeEntry,
    base: i64,
    zone: Option<&ZoneEntry>,
    travel: u64,
    reps: u16,
    points_to_top: Option<u64>,
    config: Config,
    points: u64,
) -> bool {
    exists|p: i64|
        #[trigger] call_ensures(
            E::challenge_points,
            (
                env,
                &c,
                base,
                zone,
                travel,
                reps,
                points_to_top,
                &config,
            ),
            p,
        ) && points == p as u64
}

/// An opened challenge is scored by the environment for the travel time from the team's own
/// zone to the challenge's zone (0 where none is known), not from any other zone: its points
/// are what the environment may give for those minutes.
pub proof fn law_points_travel_from_team_zone<E: GameEnv>(
    env: &E,
    o: InOpenChallenge,
    c: ChallengeEntry,
    id: u64,
    zone: Option<(u64, u64)>,
    zone_zoneables: bool,
    reps: u16,
    points: u64,
    now: Moment,
    config: Config,
    entry: Option<&ZoneEntry>,
    current: ZoneEntry,
    points_to_top: Option<u64>,
)
    requires
        opened_as(o, c, id, zone, zone_zoneables, reps, points, now, config),
        points_said(
            env,
            c,
            base_points(c, config, reps, zone_zoneables),
            entry,
            match zone {
                Some(z) => travel_minutes(current, z.0),
                None => 0,
            },
            reps,
            points_to_top,
            config,
            points,
        ),
    ensures
        o.zone matches Some(zid) ==> exists|p: i64|
            #[trigger] call_ensures(
                E::challenge_points,
                (
                    env,
                    &c,
                    base_points(c, config, reps, zone_zoneables),
                    entry,
                    travel_minutes(current, zid),
                    reps,
                    points_to_top,
                    &config,
                ),
                p,
            ) && o.points == p as u64,
        o.zone is None ==> points_said(
            env,
            c,
            base_points(c, config, reps, zone_zoneables),
            entry,
            0,
            reps,
            points_to_top,
            config,
            o.points,
        ),
{
}

impl ChallengeEntry {
    /// Draws the number of repetitions from the range of the challenge (0 where it is empty).
    pub fn draw_reps(&self) -> (reps: u16)
        ensures
            reps_ok(self.repetitions, reps),
    {
        if self.repetitions.start < self.repetitions.end {
            let r = random_between(self.repetitions.start as i64, self.repetitions.end as i64 - 1);
            r as u16
        } else {
            0
        }
    }

    /// The points of the challenge that need no floating point (see `base_points`).
    pub fn base_points(&self, config: &Config, reps: u16, zone_zoneables: bool) -> (p: i64)
        ensures
            p == base_points(*self, *config, reps, zone_zoneables),
    {
        let k: i64 = match self.kaffskala {
            Some(x) => (x as i64).wrapping_mul(config.points_per_kaffness as i64),
            None => 0,
        };
        let g: i64 = match self.grade {
            Some(x) => (x as i64).wrapping_mul(config.points_per_grade as i64),
            None => 0,
        };
        let walking = (self.walking_time as i64).wrapping_mul(config.points_per_walking_minute as i64);
        let stationary = (self.stationary_time as i64).wrapping_mul(
            config.points_per_stationary_minute as i64,
        );
        let repeated = (reps as i64).wrapping_mul(self.points_per_rep as i64);
        let kind_points: i64 = match self.kind {
            ChallengeType::ZKaff => {
                let dead_end: i64 = if self.dead_end {
                    config.zkaff_points_for_dead_end as i64
                } else {
                    0
                };
                let distance: i64 = match (self.station_distance as u64).checked_div(
                    config.zkaff_station_distance_divisor,
                ) {
                    Some(d) => d as i64,
                    None => 0,
                };
                let to_hb = (self.time_to_hb as i64).wrapping_mul(
                    config.zkaff_points_per_minute_to_hb as i64,
                );
                dead_end.wrapping_add(distance).wrapping_add(to_hb)
            },
            ChallengeType::Zoneable => if zone_zoneables {
                config.points_for_zoneable as i64
            } else {
                0
            },
            _ => 0,
        };
        (self.additional_points as i64).wrapping_add(k).wrapping_add(g).wrapping_add(walking).wrapping_add(
            stationary,
        ).wrapping_add(repeated).wrapping_add(kind_points)
    }
}

/// The id of an entry, where there is one.
pub open spec fn entry_id<'a>(r: Option<DBEntry<'a, ZoneEntry>>) -> Option<u64> {
    match r {
        Some(e) => Some(e.id),
        None => None,
    }
}

/// Picks a zone at random among those that can be read, are allowed and, for `s_bahn_only`, are
/// S-Bahn zones.
fn pick_random<'a>(
    zones: &'a DBMirror<ZoneEntry>,
    allowed: &Option<Vec<u64>>,
    s_bahn_only: bool,
) -> (r: Option<DBEntry<'a, ZoneEntry>>)
    ensures
        picks_randomly(entry_id(r), *zones, *allowed, s_bahn_only),
        r matches Some(e) ==> zones.spec_get(e.id as int) == Some(*e.contents),
{
    let all = zones.get_all();
    let mut candidates: Vec<DBEntry<'a, ZoneEntry>> = Vec::new();
    let mut i: usize = 0;
    while i < all.len()
        invariant
            i <= all@.len(),
            crate::mirror::lists_live(zones@, all@.map_values(|e: DBEntry<'a, ZoneEntry>| e.id)),
            forall|k: int| 0 <= k < all@.len() ==> Some(*all@[k].contents) == zones.spec_get(all@[k].id as int),
            forall|k: int|
                0 <= k < candidates@.len() ==> random_candidate(*zones, *allowed, s_bahn_only, #[trigger] candidates@[k].id)
                    && zones.spec_get(candidates@[k].id as int) == Some(*candidates@[k].contents),
            forall|k: int|
                0 <= k < i && random_candidate(*zones, *allowed, s_bahn_only, #[trigger] all@[k].id) ==> candidates@.len() > 0,
        decreases all@.len() - i,
    {
        let e = &all[i];
        let ok_zone = match allowed {
            None => true,
            Some(v) => crate::generation::contains_id(v, e.id),
        };
        if ok_zone && (!s_bahn_only || e.contents.s_bahn_zone) {
            candidates.push(DBEntry { id: e.id, contents: e.contents });
        }
        i = i + 1;
    }
    if candidates.len() == 0 {
        proof {
            let ids = all@.map_values(|e: DBEntry<'a, ZoneEntry>| e.id);
            assert forall|id: u64| !random_candidate(*zones, *allowed, s_bahn_only, id) by {
                if random_candidate(*zones, *allowed, s_bahn_only, id) {
                    assert(crate::mirror::slot_live(zones@[id as int]));
                    let k = choose|k: int| 0 <= k < ids.len() && ids[k] == id;
                    assert(all@[k].id == id);
                }
            }
        }
        None
    } else {
        let j = random_index(candidates.len());
        let e = candidates.swap_remove(j);
        Some(e)
    }
}

/// The text of the zone number.
fn zone_text(n: u64) -> (s: String)
    ensures
        s@ == decimal(n),
{
    decimal_text(n)
}

/// `s` with `%z` and `%s` replaced by the zone number, where there is a zone (see
/// `zone_filled`).
fn fill_zone(s: String, zone_number: Option<u64>) -> (r: String)
    ensures
        r@ == zone_filled(s@, zone_number),
{
    match zone_number {
        Some(n) => {
            let t = zone_text(n);
            proof {
                reveal_strlit("%z");
                reveal_strlit("%s");
            }
            let a = replace_all(s.as_str(), "%z", t.as_str());
            replace_all(a.as_str(), "%s", t.as_str())
        },
        None => s,
    }
}

/// `s` with `%r` replaced by the number of repetitions.
fn fill_reps(s: String, reps: u16) -> (r: String)
    ensures
        r@ == replaced(s@, "%r"@, decimal(reps as u64)),
{
    let t = decimal_text(reps as u64);
    proof {
        reveal_strlit("%r");
    }
    replace_all(s.as_str(), "%r", t.as_str())
}

impl ChallengeEntry {
    /// Chooses the zone of the challenge (see `zone_choice`): the entry of the zone, where it
    /// gets one.
    pub fn choose_zone<'a>(
        &self,
        zone_zoneables: bool,
        centre: DBEntry<'a, ZoneEntry>,
        current: &ZoneEntry,
        allowed: &Option<Vec<u64>>,
        zones: &'a DBMirror<ZoneEntry>,
    ) -> (r: Option<DBEntry<'a, ZoneEntry>>)
        ensures
            zone_choice(*self, entry_id(r), zone_zoneables, centre.id, *current, *allowed, *zones),
            r matches Some(e) ==> if uses_centre(*self) {
                *e.contents == *centre.contents
            } else {
                zones.spec_get(e.id as int) == Some(*e.contents)
            },
    {
        match self.random_place {
            Some(RandomPlaceType::Zone) => pick_random(zones, allowed, false),
            Some(RandomPlaceType::SBahnZone) => pick_random(zones, allowed, true),
            None => match self.kind {
                ChallengeType::Kaff => {
                    if self.zone.len() > 0 {
                        let id = self.zone[0];
                        match zones.get(id) {
                            Some(z) => Some(DBEntry { id, contents: z }),
                            None => None,
                        }
                    } else {
                        None
                    }
                },
                ChallengeType::Ortsspezifisch => match self.closest_zone(current) {
                    Some(id) => match zones.get(id) {
                        Some(z) => Some(DBEntry { id, contents: z }),
                        None => None,
                    },
                    None => None,
                },
                ChallengeType::ZKaff => Some(centre),
                ChallengeType::Zoneable => if zone_zoneables {
                    pick_random(zones, allowed, false)
                } else {
                    None
                },
                _ => None,
            },
        }
    }

    /// The challenge opened under id `id` with zone `zone` (its id and number), `reps`
    /// repetitions and `points` points at `now` (see `opened_as`).
    pub fn opened(
        &self,
        id: u64,
        zone: Option<(u64, u64)>,
        zone_zoneables: bool,
        reps: u16,
        points: u64,
        now: Moment,
        config: &Config,
    ) -> (o: InOpenChallenge)
        ensures
            opened_as(o, *self, id, zone, zone_zoneables, reps, points, now, *config),
    {
        let number = match zone {
            Some(z) => Some(z.1),
            None => None,
        };
        let title: String = match &self.title {
            Some(t) => t.clone(),
            None => match &self.place {
                Some(p) => match self.kind {
                    ChallengeType::ZKaff => String::from_str("Züridrift nach ").concat(p.as_str()),
                    _ => String::from_str("Usflug uf ").concat(p.as_str()),
                },
                None => config.default_challenge_title.clone(),
            },
        };
        let description: String = match &self.description {
            Some(d) => d.clone(),
            None => match &self.place {
                Some(p) => match self.kind {
                    ChallengeType::ZKaff => String::from_str("Gönd zu de Station ").concat(
                        p.as_str(),
                    ).concat(" in Züri."),
                    _ => String::from_str("Gönd nach ").concat(p.as_str()).concat("."),
                },
                None => config.default_challenge_description.clone(),
            },
        };
        let title = if self.no_disembark {
            String::from_str("🛤️ ").concat(title.as_str())
        } else {
            title
        };
        let description = match number {
            Some(n) => if matches!(self.kind, ChallengeType::Zoneable) && zone_zoneables {
                let t = zone_text(n);
                description.concat(" ⚠️ Damit ihr Pünkt überchömed, mached das i de Zone ").concat(
                    t.as_str(),
                ).concat(".")
            } else {
                description
            },
            None => description,
        };
        let title = fill_reps(fill_zone(title, number), reps);
        let description = fill_reps(fill_zone(description, number), reps);
        let action = match &self.action {
            None => None,
            Some(ChallengeActionEntry::UncompletableMinutes(m)) => {
                let minutes = match m {
                    Some(x) => *x,
                    None => reps as u64,
                };
                Some(ChallengeAction::UncompletableMinutes(minutes_after_exec(now, minutes)))
            },
            Some(ChallengeActionEntry::Trap { stuck_minutes, catcher_message }) => {
                let minutes = match stuck_minutes {
                    Some(x) => *x,
                    None => reps as u64,
                };
                let msg = match catcher_message {
                    Some(m) => Some(m.clone()),
                    None => None,
                };
                Some(
                    ChallengeAction::Trap {
                        completable_after: minutes_after_exec(now, minutes),
                        catcher_message: msg,
                    },
                )
            },
        };
        InOpenChallenge {
            id,
            title,
            description,
            points,
            action,
            zone: match zone {
                Some(z) => Some(z.0),
                None => None,
            },
        }
    }

    /// Opens the challenge for a team in zone `current` under id `id`: chooses its zone and its
    /// repetitions, has the environment calculate its points from those that need no floating
    /// point, and writes its title, description and action.
    pub fn challenge<E: GameEnv>(
        &self,
        id: u64,
        zone_zoneables: bool,
        centre: DBEntry<'_, ZoneEntry>,
        current: &ZoneEntry,
        allowed: &Option<Vec<u64>>,
        points_to_top: Option<u64>,
        now: Moment,
        config: &Config,
        zones: &DBMirror<ZoneEntry>,
        env: &E,
    ) -> (o: InOpenChallenge)
        ensures
            exists|zone: Option<(u64, u64)>, reps: u16, points: u64|
                {
                    &&& zone_choice(
                        *self,
                        match zone {
                            Some(z) => Some(z.0),
                            None => None,
                        },
                        zone_zoneables,
                        centre.id,
                        *current,
                        *allowed,
                        *zones,
                    )
                    &&& zone matches Some(z) ==> z.1 == if uses_centre(*self) {
                        centre.contents.zone
                    } else {
                        zones.spec_get(z.0 as int)->0.zone
                    }
                    &&& reps_ok(self.repetitions, reps)
                    &&& #[trigger] opened_as(o, *self, id, zone, zone_zoneables, reps, points, now, *config)
                    &&& points_said(
                        env,
                        *self,
                        base_points(*self, *config, reps, zone_zoneables),
                        match zone {
                            Some(z) => Some(
                                &if uses_centre(*self) {
                                    *centre.contents
                                } else {
                                    zones.spec_get(z.0 as int)->0
                                },
                            ),
                            None => None,
                        },
                        match zone {
                            Some(z) => travel_minutes(*current, z.0),
                            None => 0,
                        },
                        reps,
                        points_to_top,
                        *config,
                        points,
                    )
                },
    {
        let centre_id = centre.id;
        let ghost centre_zone = centre.contents.zone;
        let chosen = self.choose_zone(zone_zoneables, centre, current, allowed, zones);
        let reps = self.draw_reps();
        let base = self.base_points(config, reps, zone_zoneables);
        let (zone, travel, entry): (Option<(u64, u64)>, u64, Option<&ZoneEntry>) = match chosen {
            Some(e) => {
                let travel: u64 = match current.minutes_to.get(&e.id) {
                    Some(m) => *m,
                    None => 0,
                };
                (Some((e.id, e.contents.zone)), travel, Some(e.contents))
            },
            None => (None, 0, None),
        };
        let p = env.challenge_points(self, base, entry, travel, reps, points_to_top, config);
        #[verifier::truncate]
        let points = p as u64;
        assert(points_said(
            env,
            *self,
            base,
            entry,
            travel,
            reps,
            points_to_top,
            *config,
            points,
        ));
        let o = self.opened(id, zone, zone_zoneables, reps, points, now, config);
        assert(opened_as(o, *self, id, zone, zone_zoneables, reps, points, now, *config));
        o
    }
}

} // verus!
