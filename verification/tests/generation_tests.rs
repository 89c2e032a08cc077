use std::collections::HashMap;
use truinlag::challenge::ChallengeEntry;
use truinlag::config::{Config, MinuteRange, PartialConfig};
use truinlag::entries::{square_crop, ZoneEntry};
use truinlag::env::GameEnv;
use truinlag::generation::{get_period, slot_kinds, zkaff_draws, GenerationPeriod, Ratio, SlotKind};
use truinlag::model::{GameConfig, PartialGameConfig, TimeOfDay};

/// An environment whose draws always come out as `yes`.
struct Fixed {
    yes: bool,
}

impl GameEnv for Fixed {
    fn chance(&self, _num: u64, _den: u64) -> bool {
        self.yes
    }
    fn regio_roll(&self, _config: &Config) -> bool {
        self.yes
    }
    fn perimeter_distance(&self, _config: &Config, _num: i64, _den: u64) -> u64 {
        40
    }
    fn challenge_points(
        &self,
        _challenge: &ChallengeEntry,
        base: i64,
        _zone: Option<&ZoneEntry>,
        travel_minutes: u64,
        _reps: u16,
        _points_to_top: Option<u64>,
        _config: &Config,
    ) -> i64 {
        base + travel_minutes as i64
    }
    fn bounty_share(&self, points: u64, _config: &Config) -> u64 {
        points / 4
    }
    fn farther_than(&self, _a: (u32, u32), _b: (u32, u32), _metres: u32) -> bool {
        self.yes
    }
    fn names_similar(&self, a: &str, b: &str) -> bool {
        a == b
    }
}

fn at(h: u32, m: u32) -> TimeOfDay {
    TimeOfDay { secs: h * 3600 + m * 60, frac: 0 }
}

#[test]
fn periods_of_a_default_day() {
    let c = Config::default_config();
    assert_eq!(get_period(&c, at(9, 10), 0), GenerationPeriod::Specific);
    assert_eq!(get_period(&c, at(9, 15), 0), GenerationPeriod::Specific);
    assert_eq!(get_period(&c, at(12, 0), 0), GenerationPeriod::Normal);
    assert_eq!(
        get_period(&c, at(14, 0), 0),
        GenerationPeriod::Perimeter(Ratio { num: 75, den: 90 })
    );
    assert_eq!(get_period(&c, at(15, 30), 0), GenerationPeriod::ZKaff(Ratio { num: 75, den: 120 }));
    assert_eq!(get_period(&c, at(16, 10), 0), GenerationPeriod::ZKaff(Ratio { num: 115, den: 120 }));
    assert_eq!(get_period(&c, at(16, 15), 0), GenerationPeriod::EndGame);
    assert_eq!(get_period(&c, at(16, 45), 0), GenerationPeriod::EndGame);
    assert_eq!(get_period(&c, at(17, 0), 0), GenerationPeriod::EndGame);
    assert_eq!(get_period(&c, at(20, 0), 0), GenerationPeriod::EndGame);
}

#[test]
fn the_wiggle_moves_the_later_borders() {
    let c = Config::default_config();
    assert_eq!(get_period(&c, at(12, 40), 0), GenerationPeriod::Normal);
    assert_eq!(
        get_period(&c, at(12, 40), 7 * 60),
        GenerationPeriod::Perimeter(Ratio { num: 2, den: 90 })
    );
    assert_eq!(get_period(&c, at(9, 14), 7 * 60), GenerationPeriod::Specific);
}

#[test]
fn plans_per_period() {
    assert_eq!(slot_kinds(GenerationPeriod::Specific, 3, false, false, false), vec![SlotKind::Specific; 3]);
    assert_eq!(
        slot_kinds(GenerationPeriod::Normal, 3, false, false, false),
        vec![SlotKind::NormalNear, SlotKind::NormalFar, SlotKind::Unspecific]
    );
    assert_eq!(
        slot_kinds(GenerationPeriod::Normal, 3, true, false, false),
        vec![SlotKind::Regio, SlotKind::NormalFar, SlotKind::Unspecific]
    );
    assert_eq!(
        slot_kinds(GenerationPeriod::Normal, 4, false, false, false),
        vec![SlotKind::Specific, SlotKind::Specific, SlotKind::Specific, SlotKind::Unspecific]
    );
    let r = Ratio { num: 10, den: 90 };
    assert_eq!(slot_kinds(GenerationPeriod::Perimeter(r), 3, false, false, false), vec![SlotKind::PerimFar, SlotKind::PerimNear, SlotKind::Unspecific]);
    assert_eq!(slot_kinds(GenerationPeriod::ZKaff(r), 3, false, true, false), vec![SlotKind::ZKaff, SlotKind::PerimNear, SlotKind::Unspecific]);
    assert_eq!(slot_kinds(GenerationPeriod::ZKaff(r), 2, false, true, true), vec![SlotKind::ZKaff, SlotKind::Unspecific]);
    assert_eq!(slot_kinds(GenerationPeriod::EndGame, 3, false, false, false), vec![SlotKind::Unspecific, SlotKind::Unspecific, SlotKind::ZKaff]);
    assert_eq!(slot_kinds(GenerationPeriod::EndGame, 0, false, false, false), vec![SlotKind::ZKaff]);
    assert_eq!(slot_kinds(GenerationPeriod::Normal, 0, false, false, false), vec![SlotKind::Unspecific]);
}

#[test]
fn zkaff_draws_over_the_period() {
    let yes = Fixed { yes: true };
    let no = Fixed { yes: false };
    assert_eq!(zkaff_draws(Ratio { num: -1, den: 90 }, &yes), (false, false));
    assert_eq!(zkaff_draws(Ratio { num: 10, den: 90 }, &yes), (true, false));
    assert_eq!(zkaff_draws(Ratio { num: 10, den: 90 }, &no), (false, false));
    assert_eq!(zkaff_draws(Ratio { num: 60, den: 90 }, &no), (true, false));
    assert_eq!(zkaff_draws(Ratio { num: 60, den: 90 }, &yes), (true, true));
    assert_eq!(zkaff_draws(Ratio { num: 90, den: 90 }, &no), (true, true));
}

#[test]
fn minute_ranges_are_half_open() {
    let r = MinuteRange { start: 20, end: 61 };
    assert!(!r.contains(19));
    assert!(r.contains(20));
    assert!(r.contains(60));
    assert!(!r.contains(61));
}

#[test]
fn zones_within_a_range_of_minutes() {
    let mut minutes_to = HashMap::new();
    minutes_to.insert(1u64, 10u64);
    minutes_to.insert(2, 30);
    minutes_to.insert(3, 45);
    minutes_to.insert(4, 26);
    let z = ZoneEntry {
        zone: 110,
        num_conn_zones: 5,
        num_connections: 9,
        train_through: true,
        mongus: false,
        s_bahn_zone: false,
        minutes_to,
    };
    let mut near = z.zones_with_distance(MinuteRange { start: 0, end: 26 });
    near.sort();
    assert_eq!(near, vec![1]);
    let mut mid = z.zones_with_distance(MinuteRange { start: 26, end: 46 });
    mid.sort();
    assert_eq!(mid, vec![2, 3, 4]);
    assert!(z.zones_with_distance(MinuteRange { start: 50, end: 40 }).is_empty());
}

#[test]
fn profile_pictures_are_cut_to_a_centred_square() {
    assert_eq!(square_crop(400, 300), (50, 0, 300));
    assert_eq!(square_crop(300, 401), (0, 50, 300));
    assert_eq!(square_crop(8, 8), (0, 0, 8));
}

#[test]
fn overrides_replace_the_recommended_values() {
    let mut p = PartialConfig::none();
    p.num_catchers = Some(1);
    p.specific_minutes = Some(5);
    let c = p.effective();
    assert_eq!(c.num_catchers, 1);
    assert_eq!(c.specific_minutes, 5);
    assert_eq!(c.end_game_minutes, 45);
    assert_eq!(c.zkaff_minutes, 120);
    assert_eq!(c.default_challenge_description, "Ihr händ Päch, die Challenge isch leider unlösbar. Ihr müend e anderi uswähle.");
    assert_eq!(c.centre_zone, 110);
    let none = PartialConfig::none().effective();
    assert_eq!(none.num_catchers, 3);
}

#[test]
fn game_config_round_trip() {
    let mut p = PartialConfig::none();
    p.set_game_values(PartialGameConfig {
        num_catchers: Some(2),
        start_zone: None,
        start_time: Some(at(8, 0)),
        end_time: None,
        challenge_sets: Some(vec![4, 5]),
    });
    let g: GameConfig = p.effective().to_game_config();
    assert_eq!(g.num_catchers, 2);
    assert_eq!(g.start_zone, 110);
    assert_eq!(g.start_time, at(8, 0));
    assert_eq!(g.end_time, at(17, 0));
    assert_eq!(g.challenge_sets, vec![4, 5]);
}

#[test]
fn apply_some_leaves_the_rest() {
    let mut c = Config::default_config();
    let mut p = PartialConfig::none();
    p.centre_zone = Some(120);
    c.apply_some(p);
    assert_eq!(c.centre_zone, 120);
    assert_eq!(c.start_zone, 110);
}

fn zone(number: u64) -> ZoneEntry {
    ZoneEntry {
        zone: number,
        num_conn_zones: 4,
        num_connections: 7,
        train_through: true,
        mongus: false,
        s_bahn_zone: false,
        minutes_to: HashMap::new(),
    }
}

#[test]
fn generation_gives_up_without_its_zones_or_challenges() {
    let config = Config::default_config();
    let completed: Vec<u64> = vec![];
    let challenges: truinlag::mirror::DBMirror<ChallengeEntry> = truinlag::mirror::DBMirror::new();
    let zones = truinlag::mirror::DBMirror::from_loaded(vec![(0u64, zone(110))]);
    let env = Fixed { yes: false };
    // no stored challenge while challenges are asked for
    assert!(truinlag::generation::generate_for(0, 0, &completed, &zones, &challenges, &config, None, &env).is_none());
    // the team's zone is missing
    assert!(truinlag::generation::generate_for(5, 0, &completed, &zones, &challenges, &config, None, &env).is_none());
    // the centre zone is missing
    let other = truinlag::mirror::DBMirror::from_loaded(vec![(0u64, zone(120))]);
    assert!(truinlag::generation::generate_for(0, 0, &completed, &other, &challenges, &config, None, &env).is_none());
}

#[test]
fn a_team_keeps_its_challenges_where_generation_gives_up() {
    let config = Config::default_config();
    let mut team = truinlag::team::TeamEntry::new(
        "A".to_string(),
        vec![],
        None,
        truinlag::model::Colour { r: 0, g: 0, b: 0 },
        config.clone(),
    );
    team.current_zone_id = 0;
    team.challenges = vec![truinlag::challenge::InOpenChallenge {
        id: 7,
        title: "Kaff".to_string(),
        description: "Gang is Kaff".to_string(),
        points: 30,
        action: None,
        zone: None,
    }];
    let players = truinlag::mirror::DBMirror::new();
    let challenges: truinlag::mirror::DBMirror<ChallengeEntry> = truinlag::mirror::DBMirror::new();
    let sets = truinlag::mirror::DBMirror::new();
    let env = Fixed { yes: false };
    for zone_number in [110u64, 120] {
        let zones = truinlag::mirror::DBMirror::from_loaded(vec![(0u64, zone(zone_number))]);
        let context = truinlag::context::SessionContext {
            engine_context: truinlag::context::EngineContext {
                player_db: &players,
                challenge_db: &challenges,
                challenge_set_db: &sets,
                zone_db: &zones,
            },
            top_team_points: None,
            session_id: 0,
            config: config.clone(),
        };
        team.generate_challenges(&context, &env);
        assert_eq!(team.challenges.len(), 1);
        assert_eq!(team.challenges[0].id, 7);
        assert_eq!(team.current_zone_id, 0);
    }
}
