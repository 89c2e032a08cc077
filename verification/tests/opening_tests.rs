use std::collections::HashMap;
use truinlag::challenge::{ChallengeAction, ChallengeEntry};
use truinlag::config::Config;
use truinlag::entries::ZoneEntry;
use truinlag::env::GameEnv;
use truinlag::mirror::{DBEntry, DBMirror};
use truinlag::model::{
    ChallengeActionEntry, ChallengeStatus, ChallengeType, RandomPlaceType, Repetitions,
};
use truinlag::opening::replace_all;

fn entry(kind: ChallengeType) -> ChallengeEntry {
    ChallengeEntry {
        kind,
        sets: vec![0],
        status: ChallengeStatus::Approved,
        title: None,
        description: None,
        random_place: None,
        place: None,
        comment: String::new(),
        kaffskala: None,
        grade: None,
        zone: vec![],
        bias_sat: 1.0f32.to_bits(),
        bias_sun: 1.0f32.to_bits(),
        walking_time: 0,
        stationary_time: 0,
        additional_points: 0,
        repetitions: Repetitions { start: 0, end: 0 },
        points_per_rep: 0,
        station_distance: 0,
        time_to_hb: 0,
        departures: 0,
        dead_end: false,
        no_disembark: false,
        fixed: false,
        in_perimeter_override: None,
        translated_titles: HashMap::new(),
        translated_descriptions: HashMap::new(),
        action: None,
        last_edit: 0,
    }
}

fn zone(number: u64, s_bahn: bool, minutes: &[(u64, u64)]) -> ZoneEntry {
    ZoneEntry {
        zone: number,
        num_conn_zones: 3,
        num_connections: 4,
        train_through: true,
        mongus: false,
        s_bahn_zone: s_bahn,
        minutes_to: minutes.iter().cloned().collect(),
    }
}

#[test]
fn replacing_goes_left_to_right() {
    assert_eq!(replace_all("a%zb%z", "%z", "110"), "a110b110");
    assert_eq!(replace_all("%%zz", "%z", "1"), "%1z");
    assert_eq!(replace_all("aaa", "aa", "b"), "ba");
    assert_eq!(replace_all("", "%r", "3"), "");
    assert_eq!(replace_all("no pattern", "%r", "3"), "no pattern");
    for (s, p, w) in [("x%ry%r", "%r", "12"), ("ääbää", "ä", "e"), ("abcabc", "bc", "")] {
        assert_eq!(replace_all(s, p, w), s.replace(p, w));
    }
}

#[test]
fn base_points_add_up() {
    let config = Config::default_config();
    let mut c = entry(ChallengeType::Kaff);
    c.additional_points = -10;
    c.kaffskala = Some(2);
    c.grade = Some(3);
    c.walking_time = 4;
    c.stationary_time = 5;
    c.points_per_rep = 7;
    // -10 + 2 * 90 + 3 * 20 + 4 * 10 + 5 * 10 + 2 * 7
    assert_eq!(c.base_points(&config, 2, false), 334);
}

#[test]
fn zkaff_and_zoneable_points() {
    let config = Config::default_config();
    let mut c = entry(ChallengeType::ZKaff);
    c.dead_end = true;
    c.station_distance = 410;
    c.time_to_hb = 3;
    // 50 + 410 / 20 + 3 * 5
    assert_eq!(c.base_points(&config, 0, false), 85);
    let mut no_divisor = config.clone();
    no_divisor.zkaff_station_distance_divisor = 0;
    assert_eq!(c.base_points(&no_divisor, 0, false), 65);
    let z = entry(ChallengeType::Zoneable);
    assert_eq!(z.base_points(&config, 0, true), 100);
    assert_eq!(z.base_points(&config, 0, false), 0);
}

#[test]
fn titles_and_descriptions_from_the_place() {
    let config = Config::default_config();
    let mut c = entry(ChallengeType::Kaff);
    c.place = Some("Hinteregg".to_string());
    let o = c.opened(4, Some((1, 120)), false, 0, 300, 0, &config);
    assert_eq!(o.id, 4);
    assert_eq!(o.zone, Some(1));
    assert_eq!(o.points, 300);
    assert_eq!(o.title, "Usflug uf Hinteregg");
    assert_eq!(o.description, "Gönd nach Hinteregg.");
    let mut z = entry(ChallengeType::ZKaff);
    z.place = Some("Oerlikon".to_string());
    z.no_disembark = true;
    let o = z.opened(5, None, false, 0, 10, 0, &config);
    assert_eq!(o.title, "🛤️ Züridrift nach Oerlikon");
    assert_eq!(o.description, "Gönd zu de Station Oerlikon in Züri.");
    let plain = entry(ChallengeType::Unspezifisch);
    let o = plain.opened(6, None, false, 0, 10, 0, &config);
    assert_eq!(o.title, "[Kreative Titel]");
}

#[test]
fn zone_and_repetitions_are_filled_in() {
    let config = Config::default_config();
    let mut c = entry(ChallengeType::Zoneable);
    c.title = Some("Mach %r Sprünge in %z".to_string());
    c.description = Some("Zone %s, %r mal".to_string());
    let o = c.opened(1, Some((3, 154)), true, 12, 0, 0, &config);
    assert_eq!(o.title, "Mach 12 Sprünge in 154");
    assert_eq!(
        o.description,
        "Zone 154, 12 mal ⚠️ Damit ihr Pünkt überchömed, mached das i de Zone 154."
    );
    let o = c.opened(1, None, false, 2, 0, 0, &config);
    assert_eq!(o.title, "Mach 2 Sprünge in %z");
}

#[test]
fn actions_end_minutes_after_now() {
    let config = Config::default_config();
    let mut c = entry(ChallengeType::Unspezifisch);
    c.action = Some(ChallengeActionEntry::UncompletableMinutes(Some(10)));
    let o = c.opened(1, None, false, 3, 0, 1_000, &config);
    assert!(matches!(o.action, Some(ChallengeAction::UncompletableMinutes(601_000))));
    c.action = Some(ChallengeActionEntry::Trap { stuck_minutes: None, catcher_message: Some("gotcha".to_string()) });
    let o = c.opened(1, None, false, 3, 0, 1_000, &config);
    match o.action {
        Some(ChallengeAction::Trap { completable_after, catcher_message }) => {
            assert_eq!(completable_after, 181_000);
            assert_eq!(catcher_message.as_deref(), Some("gotcha"));
        }
        other => panic!("unexpected {:?}", other),
    }
    c.action = Some(ChallengeActionEntry::UncompletableMinutes(Some(u64::MAX)));
    let o = c.opened(1, None, false, 3, 0, 1_000, &config);
    assert!(matches!(o.action, Some(ChallengeAction::UncompletableMinutes(i64::MAX))));
}

#[test]
fn repetitions_come_from_the_range() {
    let mut c = entry(ChallengeType::Unspezifisch);
    assert_eq!(c.draw_reps(), 0);
    c.repetitions = Repetitions { start: 3, end: 6 };
    for _ in 0..50 {
        let r = c.draw_reps();
        assert!((3..6).contains(&r));
    }
}

#[test]
fn zones_are_chosen_by_kind() {
    let zones = DBMirror::from_loaded(vec![
        (0u64, zone(110, false, &[(1, 10), (2, 30)])),
        (1, zone(120, true, &[])),
        (2, zone(130, false, &[])),
    ]);
    let centre = zones.get(0).unwrap();
    let current = zones.get(0).unwrap();

    let mut kaff = entry(ChallengeType::Kaff);
    kaff.zone = vec![2, 1];
    let r = kaff.choose_zone(false, DBEntry { id: 0, contents: centre }, current, &None, &zones);
    assert_eq!(r.map(|e| e.id), Some(2));

    let mut orts = entry(ChallengeType::Ortsspezifisch);
    orts.zone = vec![2, 1];
    let r = orts.choose_zone(false, DBEntry { id: 0, contents: centre }, current, &None, &zones);
    assert_eq!(r.map(|e| e.id), Some(1));

    let zkaff = entry(ChallengeType::ZKaff);
    let r = zkaff.choose_zone(false, DBEntry { id: 0, contents: centre }, current, &None, &zones);
    assert_eq!(r.map(|e| e.id), Some(0));

    let mut s_bahn = entry(ChallengeType::Unspezifisch);
    s_bahn.random_place = Some(RandomPlaceType::SBahnZone);
    let r = s_bahn.choose_zone(false, DBEntry { id: 0, contents: centre }, current, &None, &zones);
    assert_eq!(r.map(|e| e.id), Some(1));
    let r = s_bahn.choose_zone(false, DBEntry { id: 0, contents: centre }, current, &Some(vec![0, 2]), &zones);
    assert!(r.is_none());

    let zoneable = entry(ChallengeType::Zoneable);
    let r = zoneable.choose_zone(false, DBEntry { id: 0, contents: centre }, current, &None, &zones);
    assert!(r.is_none());
    let r = zoneable.choose_zone(true, DBEntry { id: 0, contents: centre }, current, &Some(vec![2]), &zones);
    assert_eq!(r.map(|e| e.id), Some(2));

    let unspecific = entry(ChallengeType::Unspezifisch);
    let r = unspecific.choose_zone(true, DBEntry { id: 0, contents: centre }, current, &None, &zones);
    assert!(r.is_none());
}

/// An environment that adds the travel minutes to the points that need no floating point.
struct Travel;

impl GameEnv for Travel {
    fn chance(&self, _num: u64, _den: u64) -> bool {
        false
    }
    fn regio_roll(&self, _config: &Config) -> bool {
        false
    }
    fn perimeter_distance(&self, _config: &Config, _num: i64, _den: u64) -> u64 {
        0
    }
    fn challenge_points(
        &self,
        _challenge: &ChallengeEntry,
        base: i64,
        _zone: Option<&ZoneEntry>,
        travel_minutes: u64,
        _reps: u16,
        _points_to_top: Option<u64>,
        _config: &Config,
    ) -> i64 {
        base + travel_minutes as i64
    }
    fn bounty_share(&self, points: u64, _config: &Config) -> u64 {
        points
    }
    fn farther_than(&self, _a: (u32, u32), _b: (u32, u32), _metres: u32) -> bool {
        false
    }
    fn names_similar(&self, _a: &str, _b: &str) -> bool {
        false
    }
}

#[test]
fn an_opened_challenge_gets_the_points_of_the_environment() {
    let config = Config::default_config();
    let zones = DBMirror::from_loaded(vec![(0u64, zone(110, false, &[(1, 25)])), (1, zone(121, false, &[]))]);
    let centre = zones.get(0).unwrap();
    let mut c = entry(ChallengeType::Kaff);
    c.zone = vec![1];
    c.place = Some("Uster".to_string());
    c.kaffskala = Some(1);
    c.grade = Some(1);
    let o = c.challenge(9, false, DBEntry { id: 0, contents: centre }, centre, &None, None, 0, &config, &zones, &Travel);
    assert_eq!(o.id, 9);
    assert_eq!(o.zone, Some(1));
    assert_eq!(o.points, 90 + 20 + 25);
    assert_eq!(o.title, "Usflug uf Uster");
}

#[test]
fn negative_points_wrap_into_the_unsigned_range() {
    let config = Config::default_config();
    let zones = DBMirror::from_loaded(vec![(0u64, zone(110, false, &[]))]);
    let centre = zones.get(0).unwrap();
    let mut c = entry(ChallengeType::Unspezifisch);
    c.additional_points = -1;
    let o = c.challenge(1, false, DBEntry { id: 0, contents: centre }, centre, &None, None, 0, &config, &zones, &Travel);
    assert_eq!(o.points, u64::MAX);
}
