//! The configuration of a game: a full set of values, and per-session overrides of some of them.
//! Values that are floating point numbers (factors, exponents, ratios) are held by their bit patterns;
//! only the floating point computations of the environment (`GameEnv`) read them.
use crate::model::{Colour, GameConfig, PartialGameConfig, TimeOfDay};
use vstd::prelude::*;

verus! {

/// A half-open range `start..end` of travel minutes.
#[derive(Debug, Clone, Copy, PartialEq, Eq, Structural)]
pub struct MinuteRange {
    pub start: u64,
    pub end: u64,
}

impl MinuteRange {
    /// Whether `m` lies in the range.
    pub open spec fn spec_contains(self, m: u64) -> bool {
        self.start <= m < self.end
    }

    /// Whether `m` lies in the range.
    pub fn contains(&self, m: u64) -> (b: bool)
        ensures
            b == self.spec_contains(m),
    {
        self.start <= m && m < self.end
    }
}

/// A complete set of configuration values for a game.
#[derive(Debug, Clone)]
pub struct Config {
    /// Relative standard deviation of the random change applied to the points of a challenge (bit pattern of an `f64`, 0.05).
    pub relative_standard_deviation: u64,
    /// Points per step on the Kaffskala.
    pub points_per_kaffness: u64,
    /// Points per transit grade.
    pub points_per_grade: u64,
    /// Points per minute of walking.
    pub points_per_walking_minute: u64,
    /// Points per minute of waiting.
    pub points_per_stationary_minute: u64,
    /// Exponent e of the travel points p = m * t^e (bit pattern of an `f32`, 1.4).
    pub travel_minutes_exponent: u32,
    /// Multiplier m of the travel points p = m * t^e (bit pattern of an `f32`, 3.0).
    pub travel_minutes_multiplier: u32,
    /// Points for a zoneable challenge that was given a zone.
    pub points_for_zoneable: u64,
    /// Points for a ZKaff station with only one way back.
    pub zkaff_points_for_dead_end: u64,
    /// Divisor of the station distance (in metres) of a ZKaff challenge.
    pub zkaff_station_distance_divisor: u64,
    /// Points per minute from a ZKaff station to HB.
    pub zkaff_points_per_minute_to_hb: u64,
    /// Exponent e of the departure points p = m(b - d^e) (bit pattern of an `f32`, 1/3).
    pub zkaff_departures_exponent: u32,
    /// Base b of the departure points (bit pattern of an `f32`, 7.0).
    pub zkaff_departures_base: u32,
    /// Multiplier m of the departure points (bit pattern of an `f32`, 32.0).
    pub zkaff_departures_multiplier: u32,
    /// Factor above which regular points replace fixed points (bit pattern of an `f32`, 2.0).
    pub fixed_cutoff_mult: u32,
    /// How far behind first place a team must be before its challenges give more points.
    pub underdog_starting_difference: u64,
    /// Extra fraction of points per 1000 points behind (bit pattern of an `f32`, 0.25).
    pub underdog_multiplyer_per_1000: u32,
    /// Largest Kaffskala value of challenges in the perimeter period (inclusive).
    pub perim_max_kaff: u64,
    /// Travel minutes from the centre that the perimeter shrinks from and to.
    pub perim_distance_range: MinuteRange,
    /// Travel minutes of a near challenge in the normal period.
    pub normal_period_near_distance_range: MinuteRange,
    /// Travel minutes of a far challenge in the normal period.
    pub normal_period_far_distance_range: MinuteRange,
    /// Points per connected zone fewer than 6.
    pub points_per_connected_zone_less_than_6: u64,
    /// Points per unit of the bad connectivity index 6 - sqrt(connections).
    pub points_per_bad_connectivity_index: u64,
    /// Points for a zone without trains through it.
    pub points_for_no_train: u64,
    /// Points for a zone that is especially hard to reach.
    pub points_for_mongus: u64,
    /// The zone the game converges to.
    pub centre_zone: u64,
    /// The ids of the challenge sets played with.
    pub challenge_sets: Vec<u64>,
    /// How many challenges a runner team can choose from.
    pub num_challenges: u64,
    /// Probability that the far challenge of the normal period is region-specific (bit pattern of an `f64`, 0.4).
    pub regio_ratio: u64,
    /// Start of the fraction of ZKaff challenges over the ZKaff period (bit pattern of an `f64`, 0.2).
    pub zkaff_ratio_range_start: u64,
    /// End of the fraction of ZKaff challenges over the ZKaff period (bit pattern of an `f64`, 1.2).
    pub zkaff_ratio_range_end: u64,
    /// How many teams start as catchers.
    pub num_catchers: u64,
    /// The zone in which the game starts.
    pub start_zone: u64,
    /// How long a team that caught another is protected, in milliseconds.
    pub grace_period_duration: i64,
    /// Bounty a team starts with as runner.
    pub bounty_base_points: u64,
    /// Points a team starting as catcher receives.
    pub bounty_start_points: u64,
    /// Fraction of challenge points added to the bounty (bit pattern of an `f64`, 0.3).
    pub bounty_percentage: u64,
    /// The planned start of the game.
    pub start_time: TimeOfDay,
    /// The planned end of the game.
    pub end_time: TimeOfDay,
    /// Minutes after the start during which all challenges are specific.
    pub specific_minutes: u64,
    /// Length of the perimeter period in minutes.
    pub perimeter_minutes: u64,
    /// Length of the ZKaff period in minutes.
    pub zkaff_minutes: u64,
    /// Length of the end game period in minutes.
    pub end_game_minutes: u64,
    /// How many minutes the period borders are moved at random.
    pub time_wiggle_minutes: u64,
    /// Title of a challenge that has none.
    pub default_challenge_title: String,
    /// Description of a challenge that has none.
    pub default_challenge_description: String,
    /// Colours given to teams that were created without one.
    pub team_colours: Vec<Colour>,
}

/// Overrides for some configuration values.
#[derive(Debug, Clone)]
pub struct PartialConfig {
    pub relative_standard_deviation: Option<u64>,
    pub points_per_kaffness: Option<u64>,
    pub points_per_grade: Option<u64>,
    pub points_per_walking_minute: Option<u64>,
    pub points_per_stationary_minute: Option<u64>,
    pub travel_minutes_exponent: Option<u32>,
    pub travel_minutes_multiplier: Option<u32>,
    pub points_for_zoneable: Option<u64>,
    pub zkaff_points_for_dead_end: Option<u64>,
    pub zkaff_station_distance_divisor: Option<u64>,
    pub zkaff_points_per_minute_to_hb: Option<u64>,
    pub zkaff_departures_exponent: Option<u32>,
    pub zkaff_departures_base: Option<u32>,
    pub zkaff_departures_multiplier: Option<u32>,
    pub fixed_cutoff_mult: Option<u32>,
    pub underdog_starting_difference: Option<u64>,
    pub underdog_multiplyer_per_1000: Option<u32>,
    pub perim_max_kaff: Option<u64>,
    pub perim_distance_range: Option<MinuteRange>,
    pub normal_period_near_distance_range: Option<MinuteRange>,
    pub normal_period_far_distance_range: Option<MinuteRange>,
    pub points_per_connected_zone_less_than_6: Option<u64>,
    pub points_per_bad_connectivity_index: Option<u64>,
    pub points_for_no_train: Option<u64>,
    pub points_for_mongus: Option<u64>,
    pub centre_zone: Option<u64>,
    pub challenge_sets: Option<Vec<u64>>,
    pub num_challenges: Option<u64>,
    pub regio_ratio: Option<u64>,
    pub zkaff_ratio_range_start: Option<u64>,
    pub zkaff_ratio_range_end: Option<u64>,
    pub num_catchers: Option<u64>,
    pub start_zone: Option<u64>,
    pub grace_period_duration: Option<i64>,
    pub bounty_base_points: Option<u64>,
    pub bounty_start_points: Option<u64>,
    pub bounty_percentage: Option<u64>,
    pub start_time: Option<TimeOfDay>,
    pub end_time: Option<TimeOfDay>,
    pub specific_minutes: Option<u64>,
    pub perimeter_minutes: Option<u64>,
    pub zkaff_minutes: Option<u64>,
    pub end_game_minutes: Option<u64>,
    pub time_wiggle_minutes: Option<u64>,
    pub default_challenge_title: Option<String>,
    pub default_challenge_description: Option<String>,
    pub team_colours: Option<Vec<Colour>>,
}

/// The configuration `c` with the overrides of `p` applied.
pub open spec fn merged(c: Config, p: PartialConfig) -> Config {
    Config {
        relative_standard_deviation: match p.relative_standard_deviation { Some(x) => x, None => c.relative_standard_deviation },
        points_per_kaffness: match p.points_per_kaffness { Some(x) => x, None => c.points_per_kaffness },
        points_per_grade: match p.points_per_grade { Some(x) => x, None => c.points_per_grade },
        points_per_walking_minute: match p.points_per_walking_minute { Some(x) => x, None => c.points_per_walking_minute },
        points_per_stationary_minute: match p.points_per_stationary_minute { Some(x) => x, None => c.points_per_stationary_minute },
        travel_minutes_exponent: match p.travel_minutes_exponent { Some(x) => x, None => c.travel_minutes_exponent },
        travel_minutes_multiplier: match p.travel_minutes_multiplier { Some(x) => x, None => c.travel_minutes_multiplier },
        points_for_zoneable: match p.points_for_zoneable { Some(x) => x, None => c.points_for_zoneable },
        zkaff_points_for_dead_end: match p.zkaff_points_for_dead_end { Some(x) => x, None => c.zkaff_points_for_dead_end },
        zkaff_station_distance_divisor: match p.zkaff_station_distance_divisor { Some(x) => x, None => c.zkaff_station_distance_divisor },
        zkaff_points_per_minute_to_hb: match p.zkaff_points_per_minute_to_hb { Some(x) => x, None => c.zkaff_points_per_minute_to_hb },
        zkaff_departures_exponent: match p.zkaff_departures_exponent { Some(x) => x, None => c.zkaff_departures_exponent },
        zkaff_departures_base: match p.zkaff_departures_base { Some(x) => x, None => c.zkaff_departures_base },
        zkaff_departures_multiplier: match p.zkaff_departures_multiplier { Some(x) => x, None => c.zkaff_departures_multiplier },
        fixed_cutoff_mult: match p.fixed_cutoff_mult { Some(x) => x, None => c.fixed_cutoff_mult },
        underdog_starting_difference: match p.underdog_starting_difference { Some(x) => x, None => c.underdog_starting_difference },
        underdog_multiplyer_per_1000: match p.underdog_multiplyer_per_1000 { Some(x) => x, None => c.underdog_multiplyer_per_1000 },
        perim_max_kaff: match p.perim_max_kaff { Some(x) => x, None => c.perim_max_kaff },
        perim_distance_range: match p.perim_distance_range { Some(x) => x, None => c.perim_distance_range },
        normal_period_near_distance_range: match p.normal_period_near_distance_range { Some(x) => x, None => c.normal_period_near_distance_range },
        normal_period_far_distance_range: match p.normal_period_far_distance_range { Some(x) => x, None => c.normal_period_far_distance_range },
        points_per_connected_zone_less_than_6: match p.points_per_connected_zone_less_than_6 { Some(x) => x, None => c.points_per_connected_zone_less_than_6 },
        points_per_bad_connectivity_index: match p.points_per_bad_connectivity_index { Some(x) => x, None => c.points_per_bad_connectivity_index },
        points_for_no_train: match p.points_for_no_train { Some(x) => x, None => c.points_for_no_train },
        points_for_mongus: match p.points_for_mongus { Some(x) => x, None => c.points_for_mongus },
        centre_zone: match p.centre_zone { Some(x) => x, None => c.centre_zone },
        challenge_sets: match p.challenge_sets { Some(x) => x, None => c.challenge_sets },
        num_challenges: match p.num_challenges { Some(x) => x, None => c.num_challenges },
        regio_ratio: match p.regio_ratio { Some(x) => x, None => c.regio_ratio },
        zkaff_ratio_range_start: match p.zkaff_ratio_range_start { Some(x) => x, None => c.zkaff_ratio_range_start },
        zkaff_ratio_range_end: match p.zkaff_ratio_range_end { Some(x) => x, None => c.zkaff_ratio_range_end },
        num_catchers: match p.num_catchers { Some(x) => x, None => c.num_catchers },
        start_zone: match p.start_zone { Some(x) => x, None => c.start_zone },
        grace_period_duration: match p.grace_period_duration { Some(x) => x, None => c.grace_period_duration },
        bounty_base_points: match p.bounty_base_points { Some(x) => x, None => c.bounty_base_points },
        bounty_start_points: match p.bounty_start_points { Some(x) => x, None => c.bounty_start_points },
        bounty_percentage: match p.bounty_percentage { Some(x) => x, None => c.bounty_percentage },
        start_time: match p.start_time { Some(x) => x, None => c.start_time },
        end_time: match p.end_time { Some(x) => x, None => c.end_time },
        specific_minutes: match p.specific_minutes { Some(x) => x, None => c.specific_minutes },
        perimeter_minutes: match p.perimeter_minutes { Some(x) => x, None => c.perimeter_minutes },
        zkaff_minutes: match p.zkaff_minutes { Some(x) => x, None => c.zkaff_minutes },
        end_game_minutes: match p.end_game_minutes { Some(x) => x, None => c.end_game_minutes },
        time_wiggle_minutes: match p.time_wiggle_minutes { Some(x) => x, None => c.time_wiggle_minutes },
        default_challenge_title: match p.default_challenge_title { Some(x) => x, None => c.default_challenge_title },
        default_challenge_description: match p.default_challenge_description { Some(x) => x, None => c.default_challenge_description },
        team_colours: match p.team_colours { Some(x) => x, None => c.team_colours },
    }
}

/// The override, where there is one, else the current value.
fn pick<T>(v: Option<T>, current: T) -> (r: T)
    ensures
        r == (match v {
            Some(x) => x,
            None => current,
        }),
{
    match v {
        Some(x) => x,
        None => current,
    }
}

/// The colours given to teams by default.
pub open spec fn spec_default_team_colours() -> Seq<Colour> {
    seq![
        Colour { r: 93, g: 156, b: 236 },
        Colour { r: 79, g: 193, b: 233 },
        Colour { r: 72, g: 207, b: 173 },
        Colour { r: 160, g: 212, b: 104 },
        Colour { r: 255, g: 206, b: 84 },
        Colour { r: 252, g: 110, b: 81 },
        Colour { r: 237, g: 85, b: 101 },
        Colour { r: 171, g: 146, b: 236 },
        Colour { r: 236, g: 135, b: 192 },
    ]
}

fn default_team_colours() -> (v: Vec<Colour>)
    ensures
        v@ == spec_default_team_colours(),
{
    let v = vec![
        Colour { r: 93, g: 156, b: 236 },
        Colour { r: 79, g: 193, b: 233 },
        Colour { r: 72, g: 207, b: 173 },
        Colour { r: 160, g: 212, b: 104 },
        Colour { r: 255, g: 206, b: 84 },
        Colour { r: 252, g: 110, b: 81 },
        Colour { r: 237, g: 85, b: 101 },
        Colour { r: 171, g: 146, b: 236 },
        Colour { r: 236, g: 135, b: 192 },
    ];
    assert(v@ =~= spec_default_team_colours());
    v
}

impl Config {
    /// The recommended configuration.
    pub fn default_config() -> (c: Config)
        ensures
            c.relative_standard_deviation == 0x3fa999999999999a,
            c.points_per_kaffness == 90,
            c.points_per_grade == 20,
            c.points_per_walking_minute == 10,
            c.points_per_stationary_minute == 10,
            c.travel_minutes_exponent == 0x3fb33333,
            c.travel_minutes_multiplier == 0x40400000,
            c.points_for_zoneable == 100,
            c.zkaff_points_for_dead_end == 50,
            c.zkaff_station_distance_divisor == 20,
            c.zkaff_points_per_minute_to_hb == 5,
            c.zkaff_departures_exponent == 0x3eaaaaab,
            c.zkaff_departures_base == 0x40e00000,
            c.zkaff_departures_multiplier == 0x42000000,
            c.fixed_cutoff_mult == 0x40000000,
            c.underdog_starting_difference == 1000,
            c.underdog_multiplyer_per_1000 == 0x3e800000,
            c.perim_max_kaff == 4,
            c.perim_distance_range == (MinuteRange { start: 20, end: 61 }),
            c.normal_period_near_distance_range == (MinuteRange { start: 0, end: 26 }),
            c.normal_period_far_distance_range == (MinuteRange { start: 40, end: 71 }),
            c.points_per_connected_zone_less_than_6 == 15,
            c.points_per_bad_connectivity_index == 25,
            c.points_for_no_train == 30,
            c.points_for_mongus == 50,
            c.centre_zone == 110,
            c.challenge_sets@ == Seq::<u64>::empty(),
            c.num_challenges == 3,
            c.regio_ratio == 0x3fd999999999999a,
            c.zkaff_ratio_range_start == 0x3fc999999999999a,
            c.zkaff_ratio_range_end == 0x3ff3333333333333,
            c.num_catchers == 3,
            c.start_zone == 110,
            c.grace_period_duration == 900000,
            c.bounty_base_points == 0,
            c.bounty_start_points == 500,
            c.bounty_percentage == 0x3fd3333333333333,
            c.start_time == (TimeOfDay { secs: 32400, frac: 0 }),
            c.end_time == (TimeOfDay { secs: 61200, frac: 0 }),
            c.specific_minutes == 15,
            c.perimeter_minutes == 90,
            c.zkaff_minutes == 120,
            c.end_game_minutes == 45,
            c.time_wiggle_minutes == 7,
            c.default_challenge_title@ == "[Kreative Titel]"@,
            c.default_challenge_description@ == "Ihr händ Päch, die Challenge isch leider unlösbar. Ihr müend e anderi uswähle."@,
            c.team_colours@ == spec_default_team_colours(),
    {
        Config {
            relative_standard_deviation: 0x3fa999999999999a,
            points_per_kaffness: 90,
            points_per_grade: 20,
            points_per_walking_minute: 10,
            points_per_stationary_minute: 10,
            travel_minutes_exponent: 0x3fb33333,
            travel_minutes_multiplier: 0x40400000,
            points_for_zoneable: 100,
            zkaff_points_for_dead_end: 50,
            zkaff_station_distance_divisor: 20,
            zkaff_points_per_minute_to_hb: 5,
            zkaff_departures_exponent: 0x3eaaaaab,
            zkaff_departures_base: 0x40e00000,
            zkaff_departures_multiplier: 0x42000000,
            fixed_cutoff_mult: 0x40000000,
            underdog_starting_difference: 1000,
            underdog_multiplyer_per_1000: 0x3e800000,
            perim_max_kaff: 4,
            perim_distance_range: MinuteRange { start: 20, end: 61 },
            normal_period_near_distance_range: MinuteRange { start: 0, end: 26 },
            normal_period_far_distance_range: MinuteRange { start: 40, end: 71 },
            points_per_connected_zone_less_than_6: 15,
            points_per_bad_connectivity_index: 25,
            points_for_no_train: 30,
            points_for_mongus: 50,
            centre_zone: 110,
            challenge_sets: Vec::new(),
            num_challenges: 3,
            regio_ratio: 0x3fd999999999999a,
            zkaff_ratio_range_start: 0x3fc999999999999a,
            zkaff_ratio_range_end: 0x3ff3333333333333,
            num_catchers: 3,
            start_zone: 110,
            grace_period_duration: 900_000,
            bounty_base_points: 0,
            bounty_start_points: 500,
            bounty_percentage: 0x3fd3333333333333,
            start_time: TimeOfDay { secs: 32400, frac: 0 },
            end_time: TimeOfDay { secs: 61200, frac: 0 },
            specific_minutes: 15,
            perimeter_minutes: 90,
            zkaff_minutes: 120,
            end_game_minutes: 45,
            time_wiggle_minutes: 7,
            default_challenge_title: String::from_str("[Kreative Titel]"),
            default_challenge_description: String::from_str("Ihr händ Päch, die Challenge isch leider unlösbar. Ihr müend e anderi uswähle."),
            team_colours: default_team_colours(),
        }
    }

    /// Overwrites every value for which `partial` holds an override.
    pub fn apply_some(&mut self, partial: PartialConfig)
        ensures
            *final(self) == merged(*old(self), partial),
    {
        let mut current = Config::default_config();
        std::mem::swap(&mut current, self);
        *self = Config::merge(current, partial);
    }

    /// The configuration `c` with the overrides of `p` applied.
    fn merge(c: Config, p: PartialConfig) -> (r: Config)
        ensures
            r == merged(c, p),
    {
        Config {
            relative_standard_deviation: pick(p.relative_standard_deviation, c.relative_standard_deviation),
            points_per_kaffness: pick(p.points_per_kaffness, c.points_per_kaffness),
            points_per_grade: pick(p.points_per_grade, c.points_per_grade),
            points_per_walking_minute: pick(p.points_per_walking_minute, c.points_per_walking_minute),
            points_per_stationary_minute: pick(p.points_per_stationary_minute, c.points_per_stationary_minute),
            travel_minutes_exponent: pick(p.travel_minutes_exponent, c.travel_minutes_exponent),
            travel_minutes_multiplier: pick(p.travel_minutes_multiplier, c.travel_minutes_multiplier),
            points_for_zoneable: pick(p.points_for_zoneable, c.points_for_zoneable),
            zkaff_points_for_dead_end: pick(p.zkaff_points_for_dead_end, c.zkaff_points_for_dead_end),
            zkaff_station_distance_divisor: pick(p.zkaff_station_distance_divisor, c.zkaff_station_distance_divisor),
            zkaff_points_per_minute_to_hb: pick(p.zkaff_points_per_minute_to_hb, c.zkaff_points_per_minute_to_hb),
            zkaff_departures_exponent: pick(p.zkaff_departures_exponent, c.zkaff_departures_exponent),
            zkaff_departures_base: pick(p.zkaff_departures_base, c.zkaff_departures_base),
            zkaff_departures_multiplier: pick(p.zkaff_departures_multiplier, c.zkaff_departures_multiplier),
            fixed_cutoff_mult: pick(p.fixed_cutoff_mult, c.fixed_cutoff_mult),
            underdog_starting_difference: pick(p.underdog_starting_difference, c.underdog_starting_difference),
            underdog_multiplyer_per_1000: pick(p.underdog_multiplyer_per_1000, c.underdog_multiplyer_per_1000),
            perim_max_kaff: pick(p.perim_max_kaff, c.perim_max_kaff),
            perim_distance_range: pick(p.perim_distance_range, c.perim_distance_range),
            normal_period_near_distance_range: pick(p.normal_period_near_distance_range, c.normal_period_near_distance_range),
            normal_period_far_distance_range: pick(p.normal_period_far_distance_range, c.normal_period_far_distance_range),
            points_per_connected_zone_less_than_6: pick(p.points_per_connected_zone_less_than_6, c.points_per_connected_zone_less_than_6),
            points_per_bad_connectivity_index: pick(p.points_per_bad_connectivity_index, c.points_per_bad_connectivity_index),
            points_for_no_train: pick(p.points_for_no_train, c.points_for_no_train),
            points_for_mongus: pick(p.points_for_mongus, c.points_for_mongus),
            centre_zone: pick(p.centre_zone, c.centre_zone),
            challenge_sets: pick(p.challenge_sets, c.challenge_sets),
            num_challenges: pick(p.num_challenges, c.num_challenges),
            regio_ratio: pick(p.regio_ratio, c.regio_ratio),
            zkaff_ratio_range_start: pick(p.zkaff_ratio_range_start, c.zkaff_ratio_range_start),
            zkaff_ratio_range_end: pick(p.zkaff_ratio_range_end, c.zkaff_ratio_range_end),
            num_catchers: pick(p.num_catchers, c.num_catchers),
            start_zone: pick(p.start_zone, c.start_zone),
            grace_period_duration: pick(p.grace_period_duration, c.grace_period_duration),
            bounty_base_points: pick(p.bounty_base_points, c.bounty_base_points),
            bounty_start_points: pick(p.bounty_start_points, c.bounty_start_points),
            bounty_percentage: pick(p.bounty_percentage, c.bounty_percentage),
            start_time: pick(p.start_time, c.start_time),
            end_time: pick(p.end_time, c.end_time),
            specific_minutes: pick(p.specific_minutes, c.specific_minutes),
            perimeter_minutes: pick(p.perimeter_minutes, c.perimeter_minutes),
            zkaff_minutes: pick(p.zkaff_minutes, c.zkaff_minutes),
            end_game_minutes: pick(p.end_game_minutes, c.end_game_minutes),
            time_wiggle_minutes: pick(p.time_wiggle_minutes, c.time_wiggle_minutes),
            default_challenge_title: pick(p.default_challenge_title, c.default_challenge_title),
            default_challenge_description: pick(p.default_challenge_description, c.default_challenge_description),
            team_colours: pick(p.team_colours, c.team_colours),
        }
    }

    /// The values of the configuration that clients may see.
    pub fn to_game_config(self) -> (g: GameConfig)
        ensures
            g.num_catchers == self.num_catchers,
            g.start_zone == self.start_zone,
            g.start_time == self.start_time,
            g.end_time == self.end_time,
            g.challenge_sets@ == self.challenge_sets@,
    {
        GameConfig {
            num_catchers: self.num_catchers,
            start_zone: self.start_zone,
            start_time: self.start_time,
            end_time: self.end_time,
            challenge_sets: self.challenge_sets,
        }
    }
}

impl PartialConfig {
    /// A partial configuration that overrides nothing.
    pub fn none() -> (p: PartialConfig)
        ensures
            p.relative_standard_deviation is None,
            p.points_per_kaffness is None,
            p.points_per_grade is None,
            p.points_per_walking_minute is None,
            p.points_per_stationary_minute is None,
            p.travel_minutes_exponent is None,
            p.travel_minutes_multiplier is None,
            p.points_for_zoneable is None,
            p.zkaff_points_for_dead_end is None,
            p.zkaff_station_distance_divisor is None,
            p.zkaff_points_per_minute_to_hb is None,
            p.zkaff_departures_exponent is None,
            p.zkaff_departures_base is None,
            p.zkaff_departures_multiplier is None,
            p.fixed_cutoff_mult is None,
            p.underdog_starting_difference is None,
            p.underdog_multiplyer_per_1000 is None,
            p.perim_max_kaff is None,
            p.perim_distance_range is None,
            p.normal_period_near_distance_range is None,
            p.normal_period_far_distance_range is None,
            p.points_per_connected_zone_less_than_6 is None,
            p.points_per_bad_connectivity_index is None,
            p.points_for_no_train is None,
            p.points_for_mongus is None,
            p.centre_zone is None,
            p.challenge_sets is None,
            p.num_challenges is None,
            p.regio_ratio is None,
            p.zkaff_ratio_range_start is None,
            p.zkaff_ratio_range_end is None,
            p.num_catchers is None,
            p.start_zone is None,
            p.grace_period_duration is None,
            p.bounty_base_points is None,
            p.bounty_start_points is None,
            p.bounty_percentage is None,
            p.start_time is None,
            p.end_time is None,
            p.specific_minutes is None,
            p.perimeter_minutes is None,
            p.zkaff_minutes is None,
            p.end_game_minutes is None,
            p.time_wiggle_minutes is None,
            p.default_challenge_title is None,
            p.default_challenge_description is None,
            p.team_colours is None,
            p.overrides_nothing(),
    {
        PartialConfig {
            relative_standard_deviation: None,
            points_per_kaffness: None,
            points_per_grade: None,
            points_per_walking_minute: None,
            points_per_stationary_minute: None,
            travel_minutes_exponent: None,
            travel_minutes_multiplier: None,
            points_for_zoneable: None,
            zkaff_points_for_dead_end: None,
            zkaff_station_distance_divisor: None,
            zkaff_points_per_minute_to_hb: None,
            zkaff_departures_exponent: None,
            zkaff_departures_base: None,
            zkaff_departures_multiplier: None,
            fixed_cutoff_mult: None,
            underdog_starting_difference: None,
            underdog_multiplyer_per_1000: None,
            perim_max_kaff: None,
            perim_distance_range: None,
            normal_period_near_distance_range: None,
            normal_period_far_distance_range: None,
            points_per_connected_zone_less_than_6: None,
            points_per_bad_connectivity_index: None,
            points_for_no_train: None,
            points_for_mongus: None,
            centre_zone: None,
            challenge_sets: None,
            num_challenges: None,
            regio_ratio: None,
            zkaff_ratio_range_start: None,
            zkaff_ratio_range_end: None,
            num_catchers: None,
            start_zone: None,
            grace_period_duration: None,
            bounty_base_points: None,
            bounty_start_points: None,
            bounty_percentage: None,
            start_time: None,
            end_time: None,
            specific_minutes: None,
            perimeter_minutes: None,
            zkaff_minutes: None,
            end_game_minutes: None,
            time_wiggle_minutes: None,
            default_challenge_title: None,
            default_challenge_description: None,
            team_colours: None,
        }
    }

    /// Overrides for the values that clients may change.
    pub fn from_game_config(value: PartialGameConfig) -> (p: PartialConfig)
        ensures
            p.relative_standard_deviation is None,
            p.points_per_kaffness is None,
            p.points_per_grade is None,
            p.points_per_walking_minute is None,
            p.points_per_stationary_minute is None,
            p.travel_minutes_exponent is None,
            p.travel_minutes_multiplier is None,
            p.points_for_zoneable is None,
            p.zkaff_points_for_dead_end is None,
            p.zkaff_station_distance_divisor is None,
            p.zkaff_points_per_minute_to_hb is None,
            p.zkaff_departures_exponent is None,
            p.zkaff_departures_base is None,
            p.zkaff_departures_multiplier is None,
            p.fixed_cutoff_mult is None,
            p.underdog_starting_difference is None,
            p.underdog_multiplyer_per_1000 is None,
            p.perim_max_kaff is None,
            p.perim_distance_range is None,
            p.normal_period_near_distance_range is None,
            p.normal_period_far_distance_range is None,
            p.points_per_connected_zone_less_than_6 is None,
            p.points_per_bad_connectivity_index is None,
            p.points_for_no_train is None,
            p.points_for_mongus is None,
            p.centre_zone is None,
            p.challenge_sets is Some <==> value.challenge_sets is Some,
            p.challenge_sets is Some ==> p.challenge_sets->0@ == value.challenge_sets->0@,
            p.num_challenges is None,
            p.regio_ratio is None,
            p.zkaff_ratio_range_start is None,
            p.zkaff_ratio_range_end is None,
            p.num_catchers == value.num_catchers,
            p.start_zone == value.start_zone,
            p.grace_period_duration is None,
            p.bounty_base_points is None,
            p.bounty_start_points is None,
            p.bounty_percentage is None,
            p.start_time == value.start_time,
            p.end_time == value.end_time,
            p.specific_minutes is None,
            p.perimeter_minutes is None,
            p.zkaff_minutes is None,
            p.end_game_minutes is None,
            p.time_wiggle_minutes is None,
            p.default_challenge_title is None,
            p.default_challenge_description is None,
            p.team_colours is None,
    {
        PartialConfig {
            relative_standard_deviation: None,
            points_per_kaffness: None,
            points_per_grade: None,
            points_per_walking_minute: None,
            points_per_stationary_minute: None,
            travel_minutes_exponent: None,
            travel_minutes_multiplier: None,
            points_for_zoneable: None,
            zkaff_points_for_dead_end: None,
            zkaff_station_distance_divisor: None,
            zkaff_points_per_minute_to_hb: None,
            zkaff_departures_exponent: None,
            zkaff_departures_base: None,
            zkaff_departures_multiplier: None,
            fixed_cutoff_mult: None,
            underdog_starting_difference: None,
            underdog_multiplyer_per_1000: None,
            perim_max_kaff: None,
            perim_distance_range: None,
            normal_period_near_distance_range: None,
            normal_period_far_distance_range: None,
            points_per_connected_zone_less_than_6: None,
            points_per_bad_connectivity_index: None,
            points_for_no_train: None,
            points_for_mongus: None,
            centre_zone: None,
            challenge_sets: value.challenge_sets,
            num_challenges: None,
            regio_ratio: None,
            zkaff_ratio_range_start: None,
            zkaff_ratio_range_end: None,
            num_catchers: value.num_catchers,
            start_zone: value.start_zone,
            grace_period_duration: None,
            bounty_base_points: None,
            bounty_start_points: None,
            bounty_percentage: None,
            start_time: value.start_time,
            end_time: value.end_time,
            specific_minutes: None,
            perimeter_minutes: None,
            zkaff_minutes: None,
            end_game_minutes: None,
            time_wiggle_minutes: None,
            default_challenge_title: None,
            default_challenge_description: None,
            team_colours: None,
        }
    }
}

/// The configuration `c` has the values of `p` where it overrides them, and the recommended
/// values elsewhere (strings and lists compared by their contents).
pub open spec fn is_effective(p: PartialConfig, c: Config) -> bool {
    &&& c.relative_standard_deviation == match p.relative_standard_deviation { Some(x) => x, None => 0x3fa999999999999a }
    &&& c.points_per_kaffness == match p.points_per_kaffness { Some(x) => x, None => 90 }
    &&& c.points_per_grade == match p.points_per_grade { Some(x) => x, None => 20 }
    &&& c.points_per_walking_minute == match p.points_per_walking_minute { Some(x) => x, None => 10 }
    &&& c.points_per_stationary_minute == match p.points_per_stationary_minute { Some(x) => x, None => 10 }
    &&& c.travel_minutes_exponent == match p.travel_minutes_exponent { Some(x) => x, None => 0x3fb33333 }
    &&& c.travel_minutes_multiplier == match p.travel_minutes_multiplier { Some(x) => x, None => 0x40400000 }
    &&& c.points_for_zoneable == match p.points_for_zoneable { Some(x) => x, None => 100 }
    &&& c.zkaff_points_for_dead_end == match p.zkaff_points_for_dead_end { Some(x) => x, None => 50 }
    &&& c.zkaff_station_distance_divisor == match p.zkaff_station_distance_divisor { Some(x) => x, None => 20 }
    &&& c.zkaff_points_per_minute_to_hb == match p.zkaff_points_per_minute_to_hb { Some(x) => x, None => 5 }
    &&& c.zkaff_departures_exponent == match p.zkaff_departures_exponent { Some(x) => x, None => 0x3eaaaaab }
    &&& c.zkaff_departures_base == match p.zkaff_departures_base { Some(x) => x, None => 0x40e00000 }
    &&& c.zkaff_departures_multiplier == match p.zkaff_departures_multiplier { Some(x) => x, None => 0x42000000 }
    &&& c.fixed_cutoff_mult == match p.fixed_cutoff_mult { Some(x) => x, None => 0x40000000 }
    &&& c.underdog_starting_difference == match p.underdog_starting_difference { Some(x) => x, None => 1000 }
    &&& c.underdog_multiplyer_per_1000 == match p.underdog_multiplyer_per_1000 { Some(x) => x, None => 0x3e800000 }
    &&& c.perim_max_kaff == match p.perim_max_kaff { Some(x) => x, None => 4 }
    &&& c.perim_distance_range == match p.perim_distance_range { Some(x) => x, None => MinuteRange { start: 20, end: 61 } }
    &&& c.normal_period_near_distance_range == match p.normal_period_near_distance_range { Some(x) => x, None => MinuteRange { start: 0, end: 26 } }
    &&& c.normal_period_far_distance_range == match p.normal_period_far_distance_range { Some(x) => x, None => MinuteRange { start: 40, end: 71 } }
    &&& c.points_per_connected_zone_less_than_6 == match p.points_per_connected_zone_less_than_6 { Some(x) => x, None => 15 }
    &&& c.points_per_bad_connectivity_index == match p.points_per_bad_connectivity_index { Some(x) => x, None => 25 }
    &&& c.points_for_no_train == match p.points_for_no_train { Some(x) => x, None => 30 }
    &&& c.points_for_mongus == match p.points_for_mongus { Some(x) => x, None => 50 }
    &&& c.centre_zone == match p.centre_zone { Some(x) => x, None => 110 }
    &&& c.challenge_sets@ == match p.challenge_sets { Some(x) => x@, None => Seq::<u64>::empty() }
    &&& c.num_challenges == match p.num_challenges { Some(x) => x, None => 3 }
    &&& c.regio_ratio == match p.regio_ratio { Some(x) => x, None => 0x3fd999999999999a }
    &&& c.zkaff_ratio_range_start == match p.zkaff_ratio_range_start { Some(x) => x, None => 0x3fc999999999999a }
    &&& c.zkaff_ratio_range_end == match p.zkaff_ratio_range_end { Some(x) => x, None => 0x3ff3333333333333 }
    &&& c.num_catchers == match p.num_catchers { Some(x) => x, None => 3 }
    &&& c.start_zone == match p.start_zone { Some(x) => x, None => 110 }
    &&& c.grace_period_duration == match p.grace_period_duration { Some(x) => x, None => 900000 }
    &&& c.bounty_base_points == match p.bounty_base_points { Some(x) => x, None => 0 }
    &&& c.bounty_start_points == match p.bounty_start_points { Some(x) => x, None => 500 }
    &&& c.bounty_percentage == match p.bounty_percentage { Some(x) => x, None => 0x3fd3333333333333 }
    &&& c.start_time == match p.start_time { Some(x) => x, None => TimeOfDay { secs: 32400, frac: 0 } }
    &&& c.end_time == match p.end_time { Some(x) => x, None => TimeOfDay { secs: 61200, frac: 0 } }
    &&& c.specific_minutes == match p.specific_minutes { Some(x) => x, None => 15 }
    &&& c.perimeter_minutes == match p.perimeter_minutes { Some(x) => x, None => 90 }
    &&& c.zkaff_minutes == match p.zkaff_minutes { Some(x) => x, None => 120 }
    &&& c.end_game_minutes == match p.end_game_minutes { Some(x) => x, None => 45 }
    &&& c.time_wiggle_minutes == match p.time_wiggle_minutes { Some(x) => x, None => 7 }
    &&& c.default_challenge_title@ == match p.default_challenge_title { Some(x) => x@, None => "[Kreative Titel]"@ }
    &&& c.default_challenge_description@ == match p.default_challenge_description { Some(x) => x@, None => "Ihr händ Päch, die Challenge isch leider unlösbar. Ihr müend e anderi uswähle."@ }
    &&& c.team_colours@ == match p.team_colours { Some(x) => x@, None => spec_default_team_colours() }
}

impl PartialConfig {
    /// No value is overridden.
    pub open spec fn overrides_nothing(self) -> bool {
        &&& self.relative_standard_deviation is None
        &&& self.points_per_kaffness is None
        &&& self.points_per_grade is None
        &&& self.points_per_walking_minute is None
        &&& self.points_per_stationary_minute is None
        &&& self.travel_minutes_exponent is None
        &&& self.travel_minutes_multiplier is None
        &&& self.points_for_zoneable is None
        &&& self.zkaff_points_for_dead_end is None
        &&& self.zkaff_station_distance_divisor is None
        &&& self.zkaff_points_per_minute_to_hb is None
        &&& self.zkaff_departures_exponent is None
        &&& self.zkaff_departures_base is None
        &&& self.zkaff_departures_multiplier is None
        &&& self.fixed_cutoff_mult is None
        &&& self.underdog_starting_difference is None
        &&& self.underdog_multiplyer_per_1000 is None
        &&& self.perim_max_kaff is None
        &&& self.perim_distance_range is None
        &&& self.normal_period_near_distance_range is None
        &&& self.normal_period_far_distance_range is None
        &&& self.points_per_connected_zone_less_than_6 is None
        &&& self.points_per_bad_connectivity_index is None
        &&& self.points_for_no_train is None
        &&& self.points_for_mongus is None
        &&& self.centre_zone is None
        &&& self.challenge_sets is None
        &&& self.num_challenges is None
        &&& self.regio_ratio is None
        &&& self.zkaff_ratio_range_start is None
        &&& self.zkaff_ratio_range_end is None
        &&& self.num_catchers is None
        &&& self.start_zone is None
        &&& self.grace_period_duration is None
        &&& self.bounty_base_points is None
        &&& self.bounty_start_points is None
        &&& self.bounty_percentage is None
        &&& self.start_time is None
        &&& self.end_time is None
        &&& self.specific_minutes is None
        &&& self.perimeter_minutes is None
        &&& self.zkaff_minutes is None
        &&& self.end_game_minutes is None
        &&& self.time_wiggle_minutes is None
        &&& self.default_challenge_title is None
        &&& self.default_challenge_description is None
        &&& self.team_colours is None
    }

    /// `self` and `other` override the same values with the same values (strings and lists
    /// compared by their contents).
    pub open spec fn same_as(self, other: PartialConfig) -> bool {
        &&& self.relative_standard_deviation == other.relative_standard_deviation
        &&& self.points_per_kaffness == other.points_per_kaffness
        &&& self.points_per_grade == other.points_per_grade
        &&& self.points_per_walking_minute == other.points_per_walking_minute
        &&& self.points_per_stationary_minute == other.points_per_stationary_minute
        &&& self.travel_minutes_exponent == other.travel_minutes_exponent
        &&& self.travel_minutes_multiplier == other.travel_minutes_multiplier
        &&& self.points_for_zoneable == other.points_for_zoneable
        &&& self.zkaff_points_for_dead_end == other.zkaff_points_for_dead_end
        &&& self.zkaff_station_distance_divisor == other.zkaff_station_distance_divisor
        &&& self.zkaff_points_per_minute_to_hb == other.zkaff_points_per_minute_to_hb
        &&& self.zkaff_departures_exponent == other.zkaff_departures_exponent
        &&& self.zkaff_departures_base == other.zkaff_departures_base
        &&& self.zkaff_departures_multiplier == other.zkaff_departures_multiplier
        &&& self.fixed_cutoff_mult == other.fixed_cutoff_mult
        &&& self.underdog_starting_difference == other.underdog_starting_difference
        &&& self.underdog_multiplyer_per_1000 == other.underdog_multiplyer_per_1000
        &&& self.perim_max_kaff == other.perim_max_kaff
        &&& self.perim_distance_range == other.perim_distance_range
        &&& self.normal_period_near_distance_range == other.normal_period_near_distance_range
        &&& self.normal_period_far_distance_range == other.normal_period_far_distance_range
        &&& self.points_per_connected_zone_less_than_6 == other.points_per_connected_zone_less_than_6
        &&& self.points_per_bad_connectivity_index == other.points_per_bad_connectivity_index
        &&& self.points_for_no_train == other.points_for_no_train
        &&& self.points_for_mongus == other.points_for_mongus
        &&& self.centre_zone == other.centre_zone
        &&& (self.challenge_sets is Some <==> other.challenge_sets is Some)
        &&& (self.challenge_sets is Some ==> self.challenge_sets->0@ == other.challenge_sets->0@)
        &&& self.num_challenges == other.num_challenges
        &&& self.regio_ratio == other.regio_ratio
        &&& self.zkaff_ratio_range_start == other.zkaff_ratio_range_start
        &&& self.zkaff_ratio_range_end == other.zkaff_ratio_range_end
        &&& self.num_catchers == other.num_catchers
        &&& self.start_zone == other.start_zone
        &&& self.grace_period_duration == other.grace_period_duration
        &&& self.bounty_base_points == other.bounty_base_points
        &&& self.bounty_start_points == other.bounty_start_points
        &&& self.bounty_percentage == other.bounty_percentage
        &&& self.start_time == other.start_time
        &&& self.end_time == other.end_time
        &&& self.specific_minutes == other.specific_minutes
        &&& self.perimeter_minutes == other.perimeter_minutes
        &&& self.zkaff_minutes == other.zkaff_minutes
        &&& self.end_game_minutes == other.end_game_minutes
        &&& self.time_wiggle_minutes == other.time_wiggle_minutes
        &&& (self.default_challenge_title is Some <==> other.default_challenge_title is Some)
        &&& (self.default_challenge_title is Some ==> self.default_challenge_title->0@ == other.default_challenge_title->0@)
        &&& (self.default_challenge_description is Some <==> other.default_challenge_description is Some)
        &&& (self.default_challenge_description is Some ==> self.default_challenge_description->0@ == other.default_challenge_description->0@)
        &&& (self.team_colours is Some <==> other.team_colours is Some)
        &&& (self.team_colours is Some ==> self.team_colours->0@ == other.team_colours->0@)
    }

    /// A copy of the overrides.
    pub fn duplicate(&self) -> (p: PartialConfig)
        ensures
            p.same_as(*self),
    {
        let challenge_sets = match &self.challenge_sets {
            Some(x) => Some(x.clone()),
            None => None,
        };
        proof {
            if self.challenge_sets is Some {
                assert(challenge_sets->0@ =~= self.challenge_sets->0@);
            }
        }
        let default_challenge_title = match &self.default_challenge_title {
            Some(x) => Some(x.clone()),
            None => None,
        };
        let default_challenge_description = match &self.default_challenge_description {
            Some(x) => Some(x.clone()),
            None => None,
        };
        let team_colours = match &self.team_colours {
            Some(x) => Some(x.clone()),
            None => None,
        };
        proof {
            if self.team_colours is Some {
                assert(team_colours->0@ =~= self.team_colours->0@);
            }
        }
        PartialConfig {
            relative_standard_deviation: self.relative_standard_deviation,
            points_per_kaffness: self.points_per_kaffness,
            points_per_grade: self.points_per_grade,
            points_per_walking_minute: self.points_per_walking_minute,
            points_per_stationary_minute: self.points_per_stationary_minute,
            travel_minutes_exponent: self.travel_minutes_exponent,
            travel_minutes_multiplier: self.travel_minutes_multiplier,
            points_for_zoneable: self.points_for_zoneable,
            zkaff_points_for_dead_end: self.zkaff_points_for_dead_end,
            zkaff_station_distance_divisor: self.zkaff_station_distance_divisor,
            zkaff_points_per_minute_to_hb: self.zkaff_points_per_minute_to_hb,
            zkaff_departures_exponent: self.zkaff_departures_exponent,
            zkaff_departures_base: self.zkaff_departures_base,
            zkaff_departures_multiplier: self.zkaff_departures_multiplier,
            fixed_cutoff_mult: self.fixed_cutoff_mult,
            underdog_starting_difference: self.underdog_starting_difference,
            underdog_multiplyer_per_1000: self.underdog_multiplyer_per_1000,
            perim_max_kaff: self.perim_max_kaff,
            perim_distance_range: self.perim_distance_range,
            normal_period_near_distance_range: self.normal_period_near_distance_range,
            normal_period_far_distance_range: self.normal_period_far_distance_range,
            points_per_connected_zone_less_than_6: self.points_per_connected_zone_less_than_6,
            points_per_bad_connectivity_index: self.points_per_bad_connectivity_index,
            points_for_no_train: self.points_for_no_train,
            points_for_mongus: self.points_for_mongus,
            centre_zone: self.centre_zone,
            challenge_sets,
            num_challenges: self.num_challenges,
            regio_ratio: self.regio_ratio,
            zkaff_ratio_range_start: self.zkaff_ratio_range_start,
            zkaff_ratio_range_end: self.zkaff_ratio_range_end,
            num_catchers: self.num_catchers,
            start_zone: self.start_zone,
            grace_period_duration: self.grace_period_duration,
            bounty_base_points: self.bounty_base_points,
            bounty_start_points: self.bounty_start_points,
            bounty_percentage: self.bounty_percentage,
            start_time: self.start_time,
            end_time: self.end_time,
            specific_minutes: self.specific_minutes,
            perimeter_minutes: self.perimeter_minutes,
            zkaff_minutes: self.zkaff_minutes,
            end_game_minutes: self.end_game_minutes,
            time_wiggle_minutes: self.time_wiggle_minutes,
            default_challenge_title,
            default_challenge_description,
            team_colours,
        }
    }

    /// Takes the overrides that `value` holds for the values clients may change; the others
    /// stay.
    pub fn set_game_values(&mut self, value: PartialGameConfig)
        ensures
            *final(self) == (PartialConfig {
                num_catchers: final(self).num_catchers,
                start_zone: final(self).start_zone,
                start_time: final(self).start_time,
                end_time: final(self).end_time,
                challenge_sets: final(self).challenge_sets,
                ..*old(self)
            }),
            final(self).num_catchers == match value.num_catchers {
                Some(x) => Some(x),
                None => old(self).num_catchers,
            },
            final(self).start_zone == match value.start_zone {
                Some(x) => Some(x),
                None => old(self).start_zone,
            },
            final(self).start_time == match value.start_time {
                Some(x) => Some(x),
                None => old(self).start_time,
            },
            final(self).end_time == match value.end_time {
                Some(x) => Some(x),
                None => old(self).end_time,
            },
            final(self).challenge_sets == match value.challenge_sets {
                Some(x) => Some(x),
                None => old(self).challenge_sets,
            },
    {
        if let Some(x) = value.num_catchers {
            self.num_catchers = Some(x);
        }
        if let Some(x) = value.start_zone {
            self.start_zone = Some(x);
        }
        if let Some(x) = value.start_time {
            self.start_time = Some(x);
        }
        if let Some(x) = value.end_time {
            self.end_time = Some(x);
        }
        if let Some(x) = value.challenge_sets {
            self.challenge_sets = Some(x);
        }
    }

    /// The configuration with these overrides applied to the recommended values.
    #[verifier::rlimit(40)]
    pub fn effective(&self) -> (c: Config)
        ensures
            is_effective(*self, c),
    {
        let mut c = Config::default_config();
        c.apply_some(self.duplicate());
        c
    }
}

} // verus!
