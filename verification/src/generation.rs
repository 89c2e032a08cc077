//! How challenges are chosen for a team: the period of the game decides what kinds of challenges
//! are offered, a plan lists one slot per challenge with the tests a challenge must pass, and each
//! slot is filled with a random challenge, relaxing the tests step by step where none passes.
use crate::challenge::{distance_of, ChallengeEntry, InOpenChallenge};
use crate::config::{Config, MinuteRange};
use crate::entries::ZoneEntry;
use crate::env::GameEnv;
use crate::mirror::{lists_live, DBEntry, DBMirror};
use crate::model::{ChallengeStatus, ChallengeType, TimeOfDay};
use crate::world::{local_time_of_day, now_moment, random_between, random_index, shuffle};
use vstd::prelude::*;

verus! {

/// Seconds in a day.
pub const DAY_SECS: i64 = 86400;

/// The largest number of minutes that a `chrono` duration can hold.
pub const MAX_DURATION_MINUTES: i64 = 153_722_867_280_912;

/// A fraction `num / den`.
#[derive(Debug, Clone, Copy, PartialEq, Eq, Structural)]
pub struct Ratio {
    pub num: i64,
    pub den: u64,
}

/// The period of the game, which decides what kinds of challenges are generated.
#[derive(Debug, Clone, Copy, PartialEq, Eq, Structural)]
pub enum GenerationPeriod {
    /// Right after the start: only specific challenges.
    Specific,
    Normal,
    /// The perimeter shrinks; the ratio says how far into the period the game is.
    Perimeter(Ratio),
    /// Specific challenges turn into ZKaff challenges; the ratio says how far into the period.
    ZKaff(Ratio),
    /// Right before the end: mostly unspecific challenges.
    EndGame,
}

/// `t` moved by `delta` seconds, around the clock.
pub open spec fn shifted(t: TimeOfDay, delta: int) -> TimeOfDay {
    TimeOfDay { secs: ((t.secs + delta) % 86400) as u32, frac: t.frac }
}

/// Moves a time of day by `delta` seconds, around the clock, as `chrono` adds a duration to a
/// time of day.
pub fn shift(t: TimeOfDay, delta: i128) -> (r: TimeOfDay)
    requires
        -0x1_0000_0000_0000_0000_0000 < delta < 0x1_0000_0000_0000_0000_0000,
    ensures
        r == shifted(t, delta as int),
{
    let x: i128 = t.secs as i128 + delta;
    let m = x % 86400;
    let r = if m < 0 {
        m + 86400
    } else {
        m
    };
    TimeOfDay { secs: r as u32, frac: t.frac }
}

/// Nanoseconds from `a` to `b`.
pub open spec fn nanos_between(a: TimeOfDay, b: TimeOfDay) -> int {
    (b.secs - a.secs) * 1_000_000_000 + (b.frac - a.frac)
}

/// Whole minutes from `a` to `b`, rounded toward zero.
pub open spec fn minutes_between(a: TimeOfDay, b: TimeOfDay) -> int {
    let ns = nanos_between(a, b);
    if ns >= 0 {
        ns / 60_000_000_000
    } else {
        -((-ns) / 60_000_000_000)
    }
}

fn minutes_from(a: TimeOfDay, b: TimeOfDay) -> (m: i64)
    ensures
        m == minutes_between(a, b),
{
    let ns: i128 = (b.secs as i128 - a.secs as i128) * 1_000_000_000 + (b.frac as i128
        - a.frac as i128);
    if ns >= 0 {
        (ns / 60_000_000_000) as i64
    } else {
        -(((-ns) / 60_000_000_000) as i64)
    }
}

/// The configured lengths of the periods fit into a `chrono` duration.
pub open spec fn period_lengths_fit(config: Config) -> bool {
    &&& -MAX_DURATION_MINUTES <= config.specific_minutes as i64 <= MAX_DURATION_MINUTES
    &&& -MAX_DURATION_MINUTES <= config.end_game_minutes as i64 <= MAX_DURATION_MINUTES
    &&& -MAX_DURATION_MINUTES <= config.zkaff_minutes as i64 <= MAX_DURATION_MINUTES
    &&& -MAX_DURATION_MINUTES <= config.perimeter_minutes as i64 <= MAX_DURATION_MINUTES
}

/// Whether the period lengths of `config` can be turned into durations.
pub fn period_lengths_fit_in(config: &Config) -> (b: bool)
    ensures
        b == period_lengths_fit(*config),
{
    let a = config.specific_minutes as i64;
    let b = config.end_game_minutes as i64;
    let c = config.zkaff_minutes as i64;
    let d = config.perimeter_minutes as i64;
    -MAX_DURATION_MINUTES <= a && a <= MAX_DURATION_MINUTES && -MAX_DURATION_MINUTES <= b && b
        <= MAX_DURATION_MINUTES && -MAX_DURATION_MINUTES <= c && c <= MAX_DURATION_MINUTES
        && -MAX_DURATION_MINUTES <= d && d <= MAX_DURATION_MINUTES
}

/// The period of the game at `now`, where the borders after the specific period are moved by
/// `wiggle` seconds.
pub open spec fn period_at(config: Config, now: TimeOfDay, wiggle: int) -> GenerationPeriod {
    let specific_end = shifted(config.start_time, (config.specific_minutes as i64) * 60);
    if now.not_after(specific_end) {
        GenerationPeriod::Specific
    } else if config.end_time.not_after(now) {
        GenerationPeriod::EndGame
    } else {
        let t = shifted(now, wiggle % 86400);
        let end_game = shifted(config.end_time, -((config.end_game_minutes as i64) * 60));
        let zurich = shifted(end_game, -((config.zkaff_minutes as i64) * 60));
        let perimeter = shifted(zurich, -((config.perimeter_minutes as i64) * 60));
        if end_game.not_after(t) {
            GenerationPeriod::EndGame
        } else if zurich.not_after(t) {
            GenerationPeriod::ZKaff(
                Ratio { num: minutes_between(zurich, t) as i64, den: config.zkaff_minutes },
            )
        } else if perimeter.not_after(t) {
            GenerationPeriod::Perimeter(
                Ratio { num: minutes_between(perimeter, t) as i64, den: config.perimeter_minutes },
            )
        } else {
            GenerationPeriod::Normal
        }
    }
}

fn not_after(a: &TimeOfDay, b: &TimeOfDay) -> (r: bool)
    ensures
        r == a.not_after(*b),
{
    !b.is_before(a)
}

/// The period of the game at `now`, with the later borders moved by `wiggle` seconds.
#[verifier::rlimit(40)]
pub fn get_period(config: &Config, now: TimeOfDay, wiggle: i64) -> (p: GenerationPeriod)
    requires
        period_lengths_fit(*config),
    ensures
        p == period_at(*config, now, wiggle as int),
{
    let specific_end = shift(config.start_time, config.specific_minutes as i64 as i128 * 60);
    if not_after(&now, &specific_end) {
        GenerationPeriod::Specific
    } else if not_after(&config.end_time, &now) {
        GenerationPeriod::EndGame
    } else {
        let t = shift(now, (wiggle % 86400) as i128);
        let end_game = shift(config.end_time, -(config.end_game_minutes as i64 as i128 * 60));
        let zurich = shift(end_game, -(config.zkaff_minutes as i64 as i128 * 60));
        let perimeter = shift(zurich, -(config.perimeter_minutes as i64 as i128 * 60));
        if not_after(&end_game, &t) {
            GenerationPeriod::EndGame
        } else if not_after(&zurich, &t) {
            GenerationPeriod::ZKaff(Ratio { num: minutes_from(zurich, t), den: config.zkaff_minutes })
        } else if not_after(&perimeter, &t) {
            GenerationPeriod::Perimeter(
                Ratio { num: minutes_from(perimeter, t), den: config.perimeter_minutes },
            )
        } else {
            GenerationPeriod::Normal
        }
    }
}

/// Approved or to be refactored: usable in a game.
pub open spec fn is_approved(c: ChallengeEntry) -> bool {
    c.status == ChallengeStatus::Approved || c.status == ChallengeStatus::Refactor
}

/// The challenge belongs to one of the given sets.
pub open spec fn in_sets(c: ChallengeEntry, sets: Seq<u64>) -> bool {
    exists|i: int| 0 <= i < sets.len() && c.sets@.contains(sets[i])
}

/// One of the zones of the challenge is among `zones`.
pub open spec fn in_zones(c: ChallengeEntry, zones: Seq<u64>) -> bool {
    exists|i: int| 0 <= i < c.zone@.len() && zones.contains(c.zone@[i])
}

/// A test that a challenge must pass to fill a slot.
#[derive(Debug, Clone)]
pub enum ChallengeFilter {
    /// Kaff, Ortsspezifisch or Zoneable.
    Specific,
    /// Zoneable or Unspezifisch.
    Unspecific,
    ZKaff,
    /// Regionsspezifisch.
    Regio,
    /// No Kaffskala value, or one at most this.
    MaxKaff(u64),
    /// Travel time from the team's zone in the near range of the normal period.
    Near,
    /// Travel time from the team's zone in the far range of the normal period.
    Far,
    /// Some zone of the challenge among these.
    InZones(Vec<u64>),
}

/// Whether challenge `c` passes test `f` for a team in zone `team_zone`.
pub open spec fn passes(f: ChallengeFilter, c: ChallengeEntry, team_zone: ZoneEntry, config: Config) -> bool {
    match f {
        ChallengeFilter::Specific => c.kind == ChallengeType::Kaff || c.kind
            == ChallengeType::Ortsspezifisch || c.kind == ChallengeType::Zoneable,
        ChallengeFilter::Unspecific => c.kind == ChallengeType::Zoneable || c.kind
            == ChallengeType::Unspezifisch,
        ChallengeFilter::ZKaff => c.kind == ChallengeType::ZKaff,
        ChallengeFilter::Regio => c.kind == ChallengeType::Regionsspezifisch,
        ChallengeFilter::MaxKaff(m) => match c.kaffskala {
            None => true,
            Some(x) => x <= m,
        },
        ChallengeFilter::Near => config.normal_period_near_distance_range.spec_contains(
            distance_of(c.zone@, team_zone.minutes_to@),
        ),
        ChallengeFilter::Far => config.normal_period_far_distance_range.spec_contains(
            distance_of(c.zone@, team_zone.minutes_to@),
        ),
        ChallengeFilter::InZones(zs) => in_zones(c, zs@),
    }
}

/// Whether challenge `c` passes all tests `fs`.
pub open spec fn passes_all(fs: Seq<ChallengeFilter>, c: ChallengeEntry, team_zone: ZoneEntry, config: Config) -> bool {
    forall|i: int| 0 <= i < fs.len() ==> passes(#[trigger] fs[i], c, team_zone, config)
}

pub(crate) fn contains_id(v: &Vec<u64>, x: u64) -> (b: bool)
    ensures
        b == v@.contains(x),
{
    let mut i: usize = 0;
    while i < v.len()
        invariant
            i <= v@.len(),
            forall|j: int| 0 <= j < i ==> v@[j] != x,
        decreases v@.len() - i,
    {
        if v[i] == x {
            return true;
        }
        i = i + 1;
    }
    false
}

fn check_in_sets(c: &ChallengeEntry, sets: &Vec<u64>) -> (b: bool)
    ensures
        b == in_sets(*c, sets@),
{
    let mut i: usize = 0;
    while i < sets.len()
        invariant
            i <= sets@.len(),
            forall|j: int| 0 <= j < i ==> !c.sets@.contains(sets@[j]),
        decreases sets@.len() - i,
    {
        if contains_id(&c.sets, sets[i]) {
            return true;
        }
        i = i + 1;
    }
    false
}

fn check_in_zones(c: &ChallengeEntry, zones: &Vec<u64>) -> (b: bool)
    ensures
        b == in_zones(*c, zones@),
{
    let mut i: usize = 0;
    while i < c.zone.len()
        invariant
            i <= c.zone@.len(),
            forall|j: int| 0 <= j < i ==> !zones@.contains(c.zone@[j]),
        decreases c.zone@.len() - i,
    {
        if contains_id(zones, c.zone[i]) {
            return true;
        }
        i = i + 1;
    }
    false
}

/// Whether challenge `c` passes test `f`.
pub fn check_filter(f: &ChallengeFilter, c: &ChallengeEntry, team_zone: &ZoneEntry, config: &Config) -> (b: bool)
    ensures
        b == passes(*f, *c, *team_zone, *config),
{
    match f {
        ChallengeFilter::Specific => matches!(
            c.kind,
            ChallengeType::Kaff | ChallengeType::Ortsspezifisch | ChallengeType::Zoneable
        ),
        ChallengeFilter::Unspecific => matches!(
            c.kind,
            ChallengeType::Zoneable | ChallengeType::Unspezifisch
        ),
        ChallengeFilter::ZKaff => matches!(c.kind, ChallengeType::ZKaff),
        ChallengeFilter::Regio => matches!(c.kind, ChallengeType::Regionsspezifisch),
        ChallengeFilter::MaxKaff(m) => match c.kaffskala {
            None => true,
            Some(x) => (x as u64) <= *m,
        },
        ChallengeFilter::Near => config.normal_period_near_distance_range.contains(
            c.distance(team_zone),
        ),
        ChallengeFilter::Far => config.normal_period_far_distance_range.contains(
            c.distance(team_zone),
        ),
        ChallengeFilter::InZones(zs) => check_in_zones(c, zs),
    }
}

/// Whether challenge `c` passes all tests `fs`.
pub fn check_filters(fs: &Vec<ChallengeFilter>, c: &ChallengeEntry, team_zone: &ZoneEntry, config: &Config) -> (b: bool)
    ensures
        b == passes_all(fs@, *c, *team_zone, *config),
{
    let mut i: usize = 0;
    while i < fs.len()
        invariant
            i <= fs@.len(),
            forall|j: int| 0 <= j < i ==> passes(#[trigger] fs@[j], *c, *team_zone, *config),
        decreases fs@.len() - i,
    {
        if !check_filter(&fs[i], c, team_zone, config) {
            return false;
        }
        i = i + 1;
    }
    true
}

/// One challenge to generate: the tests it must pass, whether a zoneable challenge gets a zone,
/// and the zones a randomly placed challenge may be put in.
#[derive(Debug, Clone)]
pub struct GenSlot {
    pub filters: Vec<ChallengeFilter>,
    pub zone_zoneables: bool,
    pub allowed_zones: Option<Vec<u64>>,
}

/// What a team brings to the choice of a challenge: its zone and the challenges it completed.
pub struct Chooser<'a> {
    pub team_zone: &'a ZoneEntry,
    pub completed: &'a Vec<u64>,
    pub config: &'a Config,
}

/// Whether the challenge with id `id` may fill `slot` at relaxation step `level`: at step 0 it
/// passes every test, at step 1 it need not be in the game's sets nor new to the team, at step 2
/// it need only be approved, and at step 3 any challenge will do.
pub open spec fn fits_at(
    level: int,
    c: ChallengeEntry,
    id: u64,
    slot: GenSlot,
    already: Seq<u64>,
    completed: Seq<u64>,
    team_zone: ZoneEntry,
    config: Config,
) -> bool {
    if level == 0 {
        &&& !already.contains(id)
        &&& is_approved(c)
        &&& in_sets(c, config.challenge_sets@)
        &&& !completed.contains(id)
        &&& passes_all(slot.filters@, c, team_zone, config)
    } else if level == 1 {
        &&& is_approved(c)
        &&& passes_all(slot.filters@, c, team_zone, config)
        &&& !already.contains(id)
    } else if level == 2 {
        is_approved(c)
    } else {
        true
    }
}

/// Whether some challenge of `raw` may fill `slot` at step `level`.
pub open spec fn some_fit_at<'a>(
    level: int,
    raw: Seq<DBEntry<'a, ChallengeEntry>>,
    slot: GenSlot,
    already: Seq<u64>,
    completed: Seq<u64>,
    team_zone: ZoneEntry,
    config: Config,
) -> bool {
    exists|i: int|
        0 <= i < raw.len() && fits_at(
            level,
            *raw[i].contents,
            raw[i].id,
            slot,
            already,
            completed,
            team_zone,
            config,
        )
}

/// The strictest step of tests at which some challenge of `raw` fits `slot` (3 where none does
/// before).
pub open spec fn first_fit_level<'a>(
    raw: Seq<DBEntry<'a, ChallengeEntry>>,
    slot: GenSlot,
    already: Seq<u64>,
    completed: Seq<u64>,
    team_zone: ZoneEntry,
    config: Config,
) -> int {
    if some_fit_at(0, raw, slot, already, completed, team_zone, config) {
        0
    } else if some_fit_at(1, raw, slot, already, completed, team_zone, config) {
        1
    } else if some_fit_at(2, raw, slot, already, completed, team_zone, config) {
        2
    } else {
        3
    }
}

fn fits(
    level: u8,
    e: &DBEntry<ChallengeEntry>,
    slot: &GenSlot,
    already: &Vec<u64>,
    who: &Chooser,
) -> (b: bool)
    requires
        level < 4,
    ensures
        b == fits_at(
            level as int,
            *e.contents,
            e.id,
            *slot,
            already@,
            who.completed@,
            *who.team_zone,
            *who.config,
        ),
{
    let c = e.contents;
    if level == 0 {
        !contains_id(already, e.id) && matches!(
            c.status,
            ChallengeStatus::Approved | ChallengeStatus::Refactor
        ) && check_in_sets(c, &who.config.challenge_sets) && !contains_id(who.completed, e.id)
            && check_filters(&slot.filters, c, who.team_zone, who.config)
    } else if level == 1 {
        matches!(c.status, ChallengeStatus::Approved | ChallengeStatus::Refactor) && check_filters(
            &slot.filters,
            c,
            who.team_zone,
            who.config,
        ) && !contains_id(already, e.id)
    } else if level == 2 {
        matches!(c.status, ChallengeStatus::Approved | ChallengeStatus::Refactor)
    } else {
        true
    }
}

/// Chooses a challenge for `slot` among `raw`: a random one of those that pass the strictest
/// step of tests that any passes. Returns its index in `raw`; `None` only where `raw` is empty.
pub fn select_challenge(
    raw: &Vec<DBEntry<ChallengeEntry>>,
    slot: &GenSlot,
    already: &Vec<u64>,
    who: &Chooser,
) -> (r: Option<usize>)
    ensures
        r is None <==> raw@.len() == 0,
        r matches Some(i) ==> i < raw@.len() && fits_at(
            first_fit_level(raw@, *slot, already@, who.completed@, *who.team_zone, *who.config),
            *raw@[i as int].contents,
            raw@[i as int].id,
            *slot,
            already@,
            who.completed@,
            *who.team_zone,
            *who.config,
        ),
{
    let mut level: u8 = 0;
    while level < 4
        invariant
            level <= 4,
            forall|l: int|
                0 <= l < level ==> !#[trigger] some_fit_at(
                    l,
                    raw@,
                    *slot,
                    already@,
                    who.completed@,
                    *who.team_zone,
                    *who.config,
                ),
        decreases 4 - level,
    {
        let mut candidates: Vec<usize> = Vec::new();
        let mut i: usize = 0;
        while i < raw.len()
            invariant
                level < 4,
                i <= raw@.len(),
                forall|k: int|
                    0 <= k < candidates@.len() ==> candidates@[k] < i && fits_at(
                        level as int,
                        *raw@[candidates@[k] as int].contents,
                        raw@[candidates@[k] as int].id,
                        *slot,
                        already@,
                        who.completed@,
                        *who.team_zone,
                        *who.config,
                    ),
                candidates@.len() == 0 ==> forall|j: int|
                    0 <= j < i ==> !fits_at(
                        level as int,
                        *raw@[j].contents,
                        raw@[j].id,
                        *slot,
                        already@,
                        who.completed@,
                        *who.team_zone,
                        *who.config,
                    ),
            decreases raw@.len() - i,
        {
            if fits(level, &raw[i], slot, already, who) {
                candidates.push(i);
            }
            i = i + 1;
        }
        if candidates.len() > 0 {
            let n = candidates.len();
            let pick = random_index(n);
            let chosen = candidates[pick];
            assert(fits_at(
                level as int,
                *raw@[chosen as int].contents,
                raw@[chosen as int].id,
                *slot,
                already@,
                who.completed@,
                *who.team_zone,
                *who.config,
            ));
            assert(some_fit_at(level as int, raw@, *slot, already@, who.completed@, *who.team_zone, *who.config));
            let r = Some(chosen);
            return r;
        }
        level = level + 1;
    }
    assert(!some_fit_at(3, raw@, *slot, already@, who.completed@, *who.team_zone, *who.config));
    if raw.len() > 0 {
        assert(fits_at(3, *raw@[0].contents, raw@[0].id, *slot, already@, who.completed@, *who.team_zone, *who.config));
    }
    None
}

/// The kind of a slot in a generation plan.
#[derive(Debug, Clone, Copy, PartialEq, Eq, Structural)]
pub enum SlotKind {
    /// A specific challenge; zoneables get a zone anywhere.
    Specific,
    /// An unspecific challenge; zoneables get no zone.
    Unspecific,
    /// A ZKaff challenge.
    ZKaff,
    /// A region-specific challenge; zoneables get no zone.
    Regio,
    /// A specific challenge near the team.
    NormalNear,
    /// A specific challenge far from the team.
    NormalFar,
    /// A specific, not too kaffig challenge in the outer half of the perimeter.
    PerimFar,
    /// A specific, not too kaffig challenge in the inner half of the perimeter.
    PerimNear,
}

/// `n` slots of kind `k`.
pub open spec fn repeat(k: SlotKind, n: nat) -> Seq<SlotKind> {
    Seq::new(n, |i: int| k)
}

/// All but one slot of kind `k`, then one of kind `last` (one slot where `num` is 0).
pub open spec fn all_but_one(k: SlotKind, num: u64, last: SlotKind) -> Seq<SlotKind> {
    repeat(k, if num > 0 { (num - 1) as nat } else { 0 }).push(last)
}

/// The kinds of the slots to fill in `period`, for `num` challenges, given the random draws:
/// whether the near slot of the normal period turns region-specific, and whether the far and
/// near slots of the ZKaff period turn ZKaff. The plans are made for three challenges; for
/// another number, all slots but one are specific (ZKaff in the ZKaff period) and one is
/// unspecific.
pub open spec fn plan_kinds(
    period: GenerationPeriod,
    num: u64,
    is_regio: bool,
    first_zkaff: bool,
    second_zkaff: bool,
) -> Seq<SlotKind> {
    match period {
        GenerationPeriod::Specific => repeat(SlotKind::Specific, num as nat),
        GenerationPeriod::Normal => if num == 3 {
            seq![
                if is_regio {
                    SlotKind::Regio
                } else {
                    SlotKind::NormalNear
                },
                SlotKind::NormalFar,
                SlotKind::Unspecific,
            ]
        } else {
            all_but_one(SlotKind::Specific, num, SlotKind::Unspecific)
        },
        GenerationPeriod::Perimeter(_) => if num == 3 {
            seq![SlotKind::PerimFar, SlotKind::PerimNear, SlotKind::Unspecific]
        } else {
            all_but_one(SlotKind::Specific, num, SlotKind::Unspecific)
        },
        GenerationPeriod::ZKaff(_) => if num == 3 {
            seq![
                if first_zkaff {
                    SlotKind::ZKaff
                } else {
                    SlotKind::PerimFar
                },
                if second_zkaff {
                    SlotKind::ZKaff
                } else {
                    SlotKind::PerimNear
                },
                SlotKind::Unspecific,
            ]
        } else {
            all_but_one(SlotKind::ZKaff, num, SlotKind::Unspecific)
        },
        GenerationPeriod::EndGame => all_but_one(SlotKind::Unspecific, num, SlotKind::ZKaff),
    }
}

/// `zs` lists, once each, exactly the zones that `from` reaches in a travel time within `range`.
pub open spec fn lists_zones_within(zs: Seq<u64>, from: ZoneEntry, range: MinuteRange) -> bool {
    zs.no_duplicates() && forall|to: u64| zs.contains(to) <==> from.within(range, to)
}

/// `slot` is a slot of kind `k`, for a team in `team_zone`, with the perimeter at `max_perim`
/// minutes from `centre`.
pub open spec fn slot_is(
    k: SlotKind,
    slot: GenSlot,
    config: Config,
    team_zone: ZoneEntry,
    centre: ZoneEntry,
    max_perim: u64,
) -> bool {
    let near = MinuteRange { start: 0, end: max_perim / 2 };
    let far = MinuteRange { start: max_perim / 2, end: max_perim };
    match k {
        SlotKind::Specific => slot.filters@ == seq![ChallengeFilter::Specific] && slot.zone_zoneables
            && slot.allowed_zones is None,
        SlotKind::Unspecific => slot.filters@ == seq![ChallengeFilter::Unspecific]
            && !slot.zone_zoneables && slot.allowed_zones is None,
        SlotKind::ZKaff => slot.filters@ == seq![ChallengeFilter::ZKaff] && slot.zone_zoneables
            && slot.allowed_zones is None,
        SlotKind::Regio => slot.filters@ == seq![ChallengeFilter::Regio] && !slot.zone_zoneables
            && slot.allowed_zones is None,
        SlotKind::NormalNear => {
            &&& slot.filters@ == seq![ChallengeFilter::Specific, ChallengeFilter::Near]
            &&& slot.zone_zoneables
            &&& slot.allowed_zones matches Some(zs)
            &&& lists_zones_within(zs@, team_zone, config.normal_period_near_distance_range)
        },
        SlotKind::NormalFar => {
            &&& slot.filters@ == seq![ChallengeFilter::Specific, ChallengeFilter::Far]
            &&& slot.zone_zoneables
            &&& slot.allowed_zones matches Some(zs)
            &&& lists_zones_within(zs@, team_zone, config.normal_period_far_distance_range)
        },
        SlotKind::PerimFar => {
            &&& slot.filters@.len() == 3
            &&& slot.filters@[0] == ChallengeFilter::Specific
            &&& slot.filters@[2] == ChallengeFilter::MaxKaff(config.perim_max_kaff)
            &&& slot.zone_zoneables
            &&& slot.filters@[1] matches ChallengeFilter::InZones(f)
            &&& slot.allowed_zones matches Some(zs)
            &&& zs@ == f@
            &&& lists_zones_within(zs@, centre, far)
        },
        SlotKind::PerimNear => {
            &&& slot.filters@.len() == 3
            &&& slot.filters@[0] == ChallengeFilter::Specific
            &&& slot.filters@[2] == ChallengeFilter::MaxKaff(config.perim_max_kaff)
            &&& slot.zone_zoneables
            &&& slot.filters@[1] matches ChallengeFilter::InZones(f)
            &&& slot.allowed_zones matches Some(zs)
            &&& zs@ == f@
            &&& lists_zones_within(zs@, centre, near)
        },
    }
}

/// Builds a slot of kind `k`.
pub fn make_slot(k: SlotKind, config: &Config, team_zone: &ZoneEntry, centre: &ZoneEntry, max_perim: u64) -> (s: GenSlot)
    ensures
        slot_is(k, s, *config, *team_zone, *centre, max_perim),
{
    match k {
        SlotKind::Specific => {
            let filters = vec![ChallengeFilter::Specific];
            assert(filters@ =~= seq![ChallengeFilter::Specific]);
            GenSlot { filters, zone_zoneables: true, allowed_zones: None }
        },
        SlotKind::Unspecific => {
            let filters = vec![ChallengeFilter::Unspecific];
            assert(filters@ =~= seq![ChallengeFilter::Unspecific]);
            GenSlot { filters, zone_zoneables: false, allowed_zones: None }
        },
        SlotKind::ZKaff => {
            let filters = vec![ChallengeFilter::ZKaff];
            assert(filters@ =~= seq![ChallengeFilter::ZKaff]);
            GenSlot { filters, zone_zoneables: true, allowed_zones: None }
        },
        SlotKind::Regio => {
            let filters = vec![ChallengeFilter::Regio];
            assert(filters@ =~= seq![ChallengeFilter::Regio]);
            GenSlot { filters, zone_zoneables: false, allowed_zones: None }
        },
        SlotKind::NormalNear => {
            let filters = vec![ChallengeFilter::Specific, ChallengeFilter::Near];
            assert(filters@ =~= seq![ChallengeFilter::Specific, ChallengeFilter::Near]);
            let zs = team_zone.zones_with_distance(config.normal_period_near_distance_range);
            GenSlot { filters, zone_zoneables: true, allowed_zones: Some(zs) }
        },
        SlotKind::NormalFar => {
            let filters = vec![ChallengeFilter::Specific, ChallengeFilter::Far];
            assert(filters@ =~= seq![ChallengeFilter::Specific, ChallengeFilter::Far]);
            let zs = team_zone.zones_with_distance(config.normal_period_far_distance_range);
            GenSlot { filters, zone_zoneables: true, allowed_zones: Some(zs) }
        },
        SlotKind::PerimFar => {
            let zs = centre.zones_with_distance(MinuteRange { start: max_perim / 2, end: max_perim });
            let f = zs.clone();
            GenSlot {
                filters: vec![
                    ChallengeFilter::Specific,
                    ChallengeFilter::InZones(f),
                    ChallengeFilter::MaxKaff(config.perim_max_kaff),
                ],
                zone_zoneables: true,
                allowed_zones: Some(zs),
            }
        },
        SlotKind::PerimNear => {
            let zs = centre.zones_with_distance(MinuteRange { start: 0, end: max_perim / 2 });
            let f = zs.clone();
            GenSlot {
                filters: vec![
                    ChallengeFilter::Specific,
                    ChallengeFilter::InZones(f),
                    ChallengeFilter::MaxKaff(config.perim_max_kaff),
                ],
                zone_zoneables: true,
                allowed_zones: Some(zs),
            }
        },
    }
}

fn push_repeated(kinds: &mut Vec<SlotKind>, k: SlotKind, n: u64)
    ensures
        final(kinds)@ == old(kinds)@ + repeat(k, n as nat),
{
    let mut i: u64 = 0;
    while i < n
        invariant
            i <= n,
            kinds@ == old(kinds)@ + repeat(k, i as nat),
        decreases n - i,
    {
        kinds.push(k);
        i = i + 1;
        assert(kinds@ =~= old(kinds)@ + repeat(k, i as nat));
    }
}

/// The kinds of the slots to fill, as `plan_kinds` describes them.
pub fn slot_kinds(
    period: GenerationPeriod,
    num: u64,
    is_regio: bool,
    first_zkaff: bool,
    second_zkaff: bool,
) -> (r: Vec<SlotKind>)
    ensures
        r@ == plan_kinds(period, num, is_regio, first_zkaff, second_zkaff),
{
    let mut kinds: Vec<SlotKind> = Vec::new();
    let rest: u64 = if num > 0 {
        num - 1
    } else {
        0
    };
    match period {
        GenerationPeriod::Specific => {
            push_repeated(&mut kinds, SlotKind::Specific, num);
        },
        GenerationPeriod::Normal => {
            if num == 3 {
                kinds.push(
                    if is_regio {
                        SlotKind::Regio
                    } else {
                        SlotKind::NormalNear
                    },
                );
                kinds.push(SlotKind::NormalFar);
                kinds.push(SlotKind::Unspecific);
            } else {
                push_repeated(&mut kinds, SlotKind::Specific, rest);
                kinds.push(SlotKind::Unspecific);
            }
        },
        GenerationPeriod::Perimeter(_) => {
            if num == 3 {
                kinds.push(SlotKind::PerimFar);
                kinds.push(SlotKind::PerimNear);
                kinds.push(SlotKind::Unspecific);
            } else {
                push_repeated(&mut kinds, SlotKind::Specific, rest);
                kinds.push(SlotKind::Unspecific);
            }
        },
        GenerationPeriod::ZKaff(_) => {
            if num == 3 {
                kinds.push(
                    if first_zkaff {
                        SlotKind::ZKaff
                    } else {
                        SlotKind::PerimFar
                    },
                );
                kinds.push(
                    if second_zkaff {
                        SlotKind::ZKaff
                    } else {
                        SlotKind::PerimNear
                    },
                );
                kinds.push(SlotKind::Unspecific);
            } else {
                push_repeated(&mut kinds, SlotKind::ZKaff, rest);
                kinds.push(SlotKind::Unspecific);
            }
        },
        GenerationPeriod::EndGame => {
            push_repeated(&mut kinds, SlotKind::Unspecific, rest);
            kinds.push(SlotKind::ZKaff);
        },
    }
    assert(kinds@ =~= plan_kinds(period, num, is_regio, first_zkaff, second_zkaff));
    kinds
}

/// The draws that decide whether the far and near slots of the ZKaff period turn ZKaff, at
/// `ratio` of the period: neither before it, the far one with probability `2 * ratio` in its
/// first half, the far one surely and the near one with probability `2 * ratio - 1` in its
/// second half, both after it.
pub fn zkaff_draws<E: GameEnv>(ratio: Ratio, env: &E) -> (r: (bool, bool))
    ensures
        ratio.num < 0 ==> r == (false, false),
        0 <= ratio.num && 2 * ratio.num < ratio.den ==> !r.1,
        2 * ratio.num >= ratio.den && ratio.num < ratio.den ==> r.0,
        ratio.num >= 0 && ratio.num >= ratio.den ==> r == (true, true),
{
    if ratio.num < 0 {
        (false, false)
    } else if (ratio.num as u64 as u128) * 2 < ratio.den as u128 {
        (env.chance(ratio.num as u64 * 2, ratio.den), false)
    } else if (ratio.num as u64) < ratio.den {
        (true, env.chance(ratio.num as u64 * 2 - ratio.den, ratio.den))
    } else {
        (true, true)
    }
}

/// A random shift of the period borders between `-60 * minutes` and `60 * minutes` seconds (the
/// products wrap at the ends of `i64`; no shift where they leave no range).
pub fn wiggle(minutes: u64) -> (w: i64)
    ensures
        ({
            let hi = (minutes as i64).wrapping_mul(60);
            let lo = (-60i64).wrapping_mul(minutes as i64);
            &&& lo <= hi ==> lo <= w <= hi
            &&& lo > hi ==> w == 0
        }),
{
    let hi = (minutes as i64).wrapping_mul(60);
    let lo = (-60i64).wrapping_mul(minutes as i64);
    if lo <= hi {
        random_between(lo, hi)
    } else {
        0
    }
}

/// Every challenge of `v` stems from a stored challenge that can be read.
pub open spec fn stems_from_store(v: Seq<InOpenChallenge>, challenges: DBMirror<ChallengeEntry>) -> bool {
    forall|k: int| 0 <= k < v.len() ==> challenges.spec_get(#[trigger] v[k].id as int) is Some
}

/// Some zone that can be read has the number `number`.
pub open spec fn has_zone_number(zones: DBMirror<ZoneEntry>, number: u64) -> bool {
    exists|i: int| 0 <= i < zones@.len() && crate::mirror::slot_live(zones@[i]) && crate::mirror::slot_value(zones@[i]).zone == number
}

/// A plan holds `num` slots, or one where `num` is 0.
proof fn lemma_plan_length(period: GenerationPeriod, num: u64, is_regio: bool, first: bool, second: bool)
    ensures
        ({
            let n = plan_kinds(period, num, is_regio, first, second).len();
            n == num || (num == 0 && n == 1)
        }),
{
}

/// Some stored challenge can be read.
pub open spec fn has_live_challenge(challenges: DBMirror<ChallengeEntry>) -> bool {
    exists|i: int| 0 <= i < challenges@.len() && crate::mirror::slot_live(challenges@[i])
}

/// `picks` are the ids of the challenges of `raw` (the readable challenges of `challenges`, by
/// id) that fill the slots `slots` of the kinds `kinds`, one after the other: each is a challenge
/// that may fill its slot at the strictest step of relaxation at which any challenge may, given
/// the challenges picked before it.
pub open spec fn fills_plan<'a>(
    raw: Seq<DBEntry<'a, ChallengeEntry>>,
    challenges: DBMirror<ChallengeEntry>,
    kinds: Seq<SlotKind>,
    slots: Seq<GenSlot>,
    picks: Seq<u64>,
    max_perim: u64,
    team_zone: ZoneEntry,
    centre: ZoneEntry,
    completed: Seq<u64>,
    config: Config,
) -> bool {
    &&& lists_live(challenges@, raw.map_values(|e: DBEntry<'a, ChallengeEntry>| e.id))
    &&& forall|q: int| 0 <= q < raw.len() ==> Some(*raw[q].contents) == challenges.spec_get(raw[q].id as int)
    &&& slots.len() == kinds.len()
    &&& picks.len() == kinds.len()
    &&& forall|k: int| 0 <= k < kinds.len() ==> slot_is(kinds[k], #[trigger] slots[k], config, team_zone, centre, max_perim)
    &&& forall|k: int| 0 <= k < kinds.len() ==> picked_for(raw, #[trigger] picks[k], slots[k], picks.take(k), completed, team_zone, config)
}

/// `id` is a challenge of `raw` that may fill `slot` at the strictest step at which any may,
/// after the challenges `already` were picked.
pub open spec fn picked_for<'a>(
    raw: Seq<DBEntry<'a, ChallengeEntry>>,
    id: u64,
    slot: GenSlot,
    already: Seq<u64>,
    completed: Seq<u64>,
    team_zone: ZoneEntry,
    config: Config,
) -> bool {
    exists|i: int|
        0 <= i < raw.len() && raw[i].id == id && #[trigger] fits_at(
            first_fit_level(raw, slot, already, completed, team_zone, config),
            *raw[i].contents,
            raw[i].id,
            slot,
            already,
            completed,
            team_zone,
            config,
        )
}

/// `v` are challenges generated for a team in zone `team_zone_id` that completed `completed`,
/// in the period `period` with the draws `is_regio`, `first`, `second` and the perimeter
/// distance `max_perim`: in some order, the challenges opened for the picks that fill the plan
/// of that period for `config.num_challenges` challenges (see `fills_plan`), the centre being
/// the first readable zone with the centre's number.
pub open spec fn generated_in(
    v: Seq<InOpenChallenge>,
    period: GenerationPeriod,
    is_regio: bool,
    first: bool,
    second: bool,
    max_perim: u64,
    team_zone_id: u64,
    completed: Seq<u64>,
    zones: DBMirror<ZoneEntry>,
    challenges: DBMirror<ChallengeEntry>,
    config: Config,
) -> bool {
    exists|
        raw: Seq<DBEntry<'_, ChallengeEntry>>,
        centre_id: u64,
        slots: Seq<GenSlot>,
        picks: Seq<u64>,
        w: Seq<InOpenChallenge>,
    |
        {
            &&& crate::team::is_first_zone_numbered(zones, config.centre_zone, centre_id)
            &&& #[trigger] fills_plan(
                raw,
                challenges,
                plan_kinds(period, config.num_challenges, is_regio, first, second),
                slots,
                picks,
                max_perim,
                zones.spec_get(team_zone_id as int)->0,
                zones.spec_get(centre_id as int)->0,
                completed,
                config,
            )
            &&& w.len() == picks.len()
            &&& forall|k: int| 0 <= k < w.len() ==> (#[trigger] w[k]).id == picks[k]
            &&& #[trigger] w.to_multiset() == v.to_multiset()
        }
}

/// `v` are challenges generated for a team in zone `team_zone_id` that completed `completed`,
/// in some period of the game (see `generated_in`).
pub open spec fn generated_for(
    v: Seq<InOpenChallenge>,
    team_zone_id: u64,
    completed: Seq<u64>,
    zones: DBMirror<ZoneEntry>,
    challenges: DBMirror<ChallengeEntry>,
    config: Config,
) -> bool {
    exists|period: GenerationPeriod, is_regio: bool, first: bool, second: bool, max_perim: u64|
        #[trigger] generated_in(v, period, is_regio, first, second, max_perim, team_zone_id, completed, zones, challenges, config)
}

/// The draws of a plan for `period` are what the environment may answer: with three
/// challenges, whether the near challenge of the normal period is region-specific, the
/// perimeter distance of the perimeter period, and the two ZKaff draws of the ZKaff period
/// (its perimeter distance being the start of the configured range); no draw otherwise.
pub open spec fn draws_for<E: GameEnv>(
    env: &E,
    period: GenerationPeriod,
    config: Config,
    is_regio: bool,
    first: bool,
    second: bool,
    max_perim: u64,
) -> bool {
    if config.num_challenges == 3 {
        match period {
            GenerationPeriod::Normal => call_ensures(E::regio_roll, (env, &config), is_regio) && max_perim == 0
                && !first && !second,
            GenerationPeriod::Perimeter(ratio) => call_ensures(
                E::perimeter_distance,
                (env, &config, ratio.num, ratio.den),
                max_perim,
            ) && !is_regio && !first && !second,
            GenerationPeriod::ZKaff(ratio) => call_ensures(zkaff_draws::<E>, (ratio, env), (first, second))
                && max_perim == config.perim_distance_range.start && !is_regio,
            _ => !is_regio && !first && !second && max_perim == 0,
        }
    } else {
        !is_regio && !first && !second && max_perim == 0
    }
}

/// `v` are challenges generated in the period of the game at a time of day `t` that the local
/// clock may read, with the later borders moved by a shift `w` that `wiggle` may draw for the
/// configured minutes, and with the draws of the plan that the environment `env` may answer.
pub open spec fn generated_at_clock<E: GameEnv>(
    env: &E,
    v: Seq<InOpenChallenge>,
    team_zone_id: u64,
    completed: Seq<u64>,
    zones: DBMirror<ZoneEntry>,
    challenges: DBMirror<ChallengeEntry>,
    config: Config,
) -> bool {
    exists|t: TimeOfDay, w: i64, is_regio: bool, first: bool, second: bool, max_perim: u64|
        call_ensures(local_time_of_day, (), t) && call_ensures(wiggle, (config.time_wiggle_minutes,), w)
            && draws_for(env, period_at(config, t, w as int), config, is_regio, first, second, max_perim)
            && #[trigger] generated_in(
            v,
            period_at(config, t, w as int),
            is_regio,
            first,
            second,
            max_perim,
            team_zone_id,
            completed,
            zones,
            challenges,
            config,
        )
}

/// Generated challenges follow the plan of the period of the game at the time of day the clock
/// read: a time within the day, with the later borders moved by at most the configured
/// wiggle in either direction, and with the draws of that plan as the environment answered.
pub proof fn law_generation_follows_the_clock<E: GameEnv>(
    env: &E,
    v: Seq<InOpenChallenge>,
    team_zone_id: u64,
    completed: Seq<u64>,
    zones: DBMirror<ZoneEntry>,
    challenges: DBMirror<ChallengeEntry>,
    config: Config,
)
    requires
        generated_at_clock(env, v, team_zone_id, completed, zones, challenges, config),
    ensures
        exists|t: TimeOfDay, w: i64, is_regio: bool, first: bool, second: bool, max_perim: u64|
            {
                &&& t.secs < 86400
                &&& t.frac < 2_000_000_000
                &&& ((config.time_wiggle_minutes as i64).wrapping_mul(60) >= (-60i64).wrapping_mul(
                    config.time_wiggle_minutes as i64,
                ) ==> (-60i64).wrapping_mul(config.time_wiggle_minutes as i64) <= w <= (
                config.time_wiggle_minutes as i64).wrapping_mul(60))
                &&& draws_for(env, period_at(config, t, w as int), config, is_regio, first, second, max_perim)
                &&& #[trigger] generated_in(
                    v,
                    period_at(config, t, w as int),
                    is_regio,
                    first,
                    second,
                    max_perim,
                    team_zone_id,
                    completed,
                    zones,
                    challenges,
                    config,
                )
            },
{
    let (t, w, is_regio, first, second, max_perim) = choose|
        t: TimeOfDay,
        w: i64,
        is_regio: bool,
        first: bool,
        second: bool,
        max_perim: u64,
    |
        call_ensures(local_time_of_day, (), t) && call_ensures(wiggle, (config.time_wiggle_minutes,), w)
            && draws_for(env, period_at(config, t, w as int), config, is_regio, first, second, max_perim)
            && #[trigger] generated_in(
            v,
            period_at(config, t, w as int),
            is_regio,
            first,
            second,
            max_perim,
            team_zone_id,
            completed,
            zones,
            challenges,
            config,
        );
    assert(generated_in(
        v,
        period_at(config, t, w as int),
        is_regio,
        first,
        second,
        max_perim,
        team_zone_id,
        completed,
        zones,
        challenges,
        config,
    ));
}

/// Generates new challenges for a team in zone `team_zone_id` with `team_points` points that
/// completed the challenges with the ids `completed`: decides the period from the clock, plans
/// the slots, fills each with a chosen challenge made open by the environment, and shuffles
/// them. Gives up (`None`) where the team's zone or the centre zone cannot be found, or where a
/// slot cannot be filled because no challenge is stored.
pub fn generate_for<E: GameEnv>(
    team_zone_id: u64,
    team_points: u64,
    completed: &Vec<u64>,
    zones: &DBMirror<ZoneEntry>,
    challenges: &DBMirror<ChallengeEntry>,
    config: &Config,
    top_team_points: Option<u64>,
    env: &E,
) -> (r: Option<Vec<InOpenChallenge>>)
    requires
        period_lengths_fit(*config),
    ensures
        r matches Some(v) ==> stems_from_store(v@, *challenges),
        r matches Some(v) ==> v@.len() == config.num_challenges || (config.num_challenges == 0
            && v@.len() == 1),
        r matches Some(v) ==> generated_for(v@, team_zone_id, completed@, *zones, *challenges, *config),
        r matches Some(v) ==> generated_at_clock(env, v@, team_zone_id, completed@, *zones, *challenges, *config),
        r is Some ==> zones.spec_get(team_zone_id as int) is Some && has_zone_number(*zones, config.centre_zone),
        r matches Some(v) && v@.len() > 0 ==> has_live_challenge(*challenges),
        r is None ==> zones.spec_get(team_zone_id as int) is None || !has_zone_number(*zones, config.centre_zone)
            || !has_live_challenge(*challenges),
        zones.spec_get(team_zone_id as int) is Some && has_zone_number(*zones, config.centre_zone)
            && has_live_challenge(*challenges) ==> r is Some,
{
    let team_zone = match zones.get(team_zone_id) {
        Some(z) => z,
        None => return None,
    };
    let points_to_top = match top_team_points {
        Some(p) => Some(p.saturating_sub(team_points)),
        None => None,
    };
    let cz = config.centre_zone;
    let is_centre = |z: &ZoneEntry| -> (b: bool)
        ensures
            b <==> z.zone == cz,
        { z.zone == cz };
    let (centre_id, centre) = match zones.find(is_centre) {
        Some(e) => (e.id, e.contents),
        None => {
            proof {
                if has_zone_number(*zones, cz) {
                    let i = choose|i: int| 0 <= i < zones@.len() && crate::mirror::slot_live(zones@[i]) && crate::mirror::slot_value(zones@[i]).zone == cz;
                    assert(zones@[i] is Some);
                }
            }
            return None;
        },
    };
    let now = now_moment();
    let time = local_time_of_day();
    let shift = wiggle(config.time_wiggle_minutes);
    let period = get_period(config, time, shift);
    let num = config.num_challenges;
    let mut is_regio = false;
    let mut max_perim: u64 = 0;
    let mut first = false;
    let mut second = false;
    if num == 3 {
        match period {
            GenerationPeriod::Normal => {
                is_regio = env.regio_roll(config);
            },
            GenerationPeriod::Perimeter(ratio) => {
                max_perim = env.perimeter_distance(config, ratio.num, ratio.den);
            },
            GenerationPeriod::ZKaff(ratio) => {
                max_perim = config.perim_distance_range.start;
                let draws = zkaff_draws(ratio, env);
                first = draws.0;
                second = draws.1;
            },
            _ => {},
        }
    }
    let kinds = slot_kinds(period, num, is_regio, first, second);
    let raw = challenges.get_all();
    let who = Chooser { team_zone, completed, config };
    let mut generated: Vec<InOpenChallenge> = Vec::new();
    let mut ids: Vec<u64> = Vec::new();
    let mut k: usize = 0;
    let ghost mut slots: Seq<GenSlot> = Seq::empty();
    while k < kinds.len()
        invariant
            k <= kinds@.len(),
            *who.team_zone == *team_zone,
            who.completed@ == completed@,
            *who.config == *config,
            lists_live(challenges@, raw@.map_values(|e: DBEntry<'_, ChallengeEntry>| e.id)),
            forall|q: int| 0 <= q < raw@.len() ==> Some(*raw@[q].contents) == challenges.spec_get(raw@[q].id as int),
            stems_from_store(generated@, *challenges),
            has_live_challenge(*challenges) ==> raw@.len() > 0,
            generated@.len() == k,
            ids@.len() == k,
            slots.len() == k,
            k > 0 ==> raw@.len() > 0,
            forall|q: int| 0 <= q < k ==> (#[trigger] generated@[q]).id == ids@[q],
            forall|q: int| 0 <= q < k ==> slot_is(kinds@[q], #[trigger] slots[q], *config, *team_zone, *centre, max_perim),
            forall|q: int| 0 <= q < k ==> picked_for(raw@, #[trigger] ids@[q], slots[q], ids@.take(q), completed@, *team_zone, *config),
        decreases kinds@.len() - k,
    {
        let slot = make_slot(kinds[k], config, team_zone, centre, max_perim);
        match select_challenge(&raw, &slot, &ids, &who) {
            None => return None,
            Some(i) => {
                let e = &raw[i];
                let oc = e.contents.challenge(
                    e.id,
                    slot.zone_zoneables,
                    DBEntry { id: centre_id, contents: centre },
                    team_zone,
                    &slot.allowed_zones,
                    points_to_top,
                    now,
                    config,
                    zones,
                    env,
                );
                let ghost old_ids = ids@;
                proof {
                    let (zz, rr, pp) = choose|zone: Option<(u64, u64)>, reps: u16, points: u64|
                        {
                            &&& crate::opening::zone_choice(
                                *e.contents,
                                match zone {
                                    Some(z) => Some(z.0),
                                    None => None,
                                },
                                slot.zone_zoneables,
                                centre_id,
                                *team_zone,
                                slot.allowed_zones,
                                *zones,
                            )
                            &&& zone matches Some(z) ==> z.1 == if crate::opening::uses_centre(*e.contents) {
                                centre.zone
                            } else {
                                zones.spec_get(z.0 as int)->0.zone
                            }
                            &&& crate::opening::reps_ok(e.contents.repetitions, reps)
                            &&& #[trigger] crate::opening::opened_as(oc, *e.contents, e.id, zone, slot.zone_zoneables, reps, points, now, *config)
                        };
                    assert(oc.id == e.id);
                    assert(fits_at(
                        first_fit_level(raw@, slot, old_ids, completed@, *team_zone, *config),
                        *raw@[i as int].contents,
                        raw@[i as int].id,
                        slot,
                        old_ids,
                        completed@,
                        *team_zone,
                        *config,
                    ));
                    assert(picked_for(raw@, e.id, slot, old_ids, completed@, *team_zone, *config));
                }
                ids.push(e.id);
                generated.push(oc);
                proof {
                    slots = slots.push(slot);
                    assert forall|q: int| 0 <= q <= k implies #[trigger] ids@.take(q) == old_ids.take(q) by {
                        assert(ids@.take(q) =~= old_ids.take(q));
                    }
                    assert(ids@.take(k as int) =~= old_ids);
                }
                assert(challenges.spec_get(generated@[generated@.len() - 1].id as int) is Some);
            },
        }
        k = k + 1;
    }
    let ghost before = generated@;
    shuffle(&mut generated);
    proof {
        assert(fills_plan(raw@, *challenges, kinds@, slots, ids@, max_perim, *team_zone, *centre, completed@, *config));
        assert(crate::team::is_first_zone_numbered(*zones, config.centre_zone, centre_id));
        assert(zones.spec_get(centre_id as int)->0 == *centre);
        assert(zones.spec_get(team_zone_id as int)->0 == *team_zone);
        assert(kinds@ == plan_kinds(period, config.num_challenges, is_regio, first, second));
        assert(before.len() == ids@.len());
        assert(forall|q: int| 0 <= q < before.len() ==> (#[trigger] before[q]).id == ids@[q]);
        assert(before.to_multiset() == generated@.to_multiset());
        assert(draws_for(env, period, *config, is_regio, first, second, max_perim));
        assert(generated_in(generated@, period, is_regio, first, second, max_perim, team_zone_id, completed@, *zones, *challenges, *config));
        assert(generated_for(generated@, team_zone_id, completed@, *zones, *challenges, *config));
        assert(generated_at_clock(env, generated@, team_zone_id, completed@, *zones, *challenges, *config));
        lemma_plan_length(period, num, is_regio, first, second);
        vstd::seq_lib::to_multiset_len(before);
        vstd::seq_lib::to_multiset_len(generated@);
        assert forall|q: int| 0 <= q < generated@.len() implies challenges.spec_get(#[trigger] generated@[q].id as int) is Some by {
            let x = generated@[q];
            vstd::seq_lib::to_multiset_contains(generated@, x);
            vstd::seq_lib::to_multiset_contains(before, x);
            assert(generated@.contains(x));
            let j = choose|j: int| 0 <= j < before.len() && before[j] == x;
            assert(challenges.spec_get(before[j].id as int) is Some);
        }
        if generated@.len() > 0 {
            assert(raw@.len() > 0);
            let ids_of = raw@.map_values(|e: DBEntry<'_, ChallengeEntry>| e.id);
            assert(ids_of[0] == raw@[0].id);
            assert(crate::mirror::slot_live(challenges@[raw@[0].id as int]));
        }
    }
    Some(generated)
}

} // verus!
