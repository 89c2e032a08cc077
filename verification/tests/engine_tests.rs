use truinlag::challenge::ChallengeEntry;
use truinlag::commands::{BroadcastAction, EngineAction, EngineCommand, Error, ResponseAction};
use truinlag::config::Config;
use truinlag::engine::Engine;
use truinlag::entries::ZoneEntry;
use truinlag::env::GameEnv;
use truinlag::model::{Mode, PartialGameConfig, TimeOfDay};
use truinlag::runtime::{InternEngineCommand, InternEngineResponse, InternEngineResponsePackage, RuntimeRequest};

/// An environment without chance: names are similar only where they are equal.
struct Plain;

impl GameEnv for Plain {
    fn chance(&self, _num: u64, _den: u64) -> bool {
        false
    }
    fn regio_roll(&self, _config: &Config) -> bool {
        false
    }
    fn perimeter_distance(&self, _config: &Config, _num: i64, _den: u64) -> u64 {
        40
    }
    fn challenge_points(
        &self,
        _challenge: &ChallengeEntry,
        base: i64,
        _zone: Option<&ZoneEntry>,
        travel_minutes: u64,
        _reps: u16,
        _points_to_top: Option<u64>,
        _config: &Config,
    ) -> i64 {
        base + travel_minutes as i64
    }
    fn bounty_share(&self, points: u64, _config: &Config) -> u64 {
        points / 4
    }
    fn farther_than(&self, _a: (u32, u32), _b: (u32, u32), _metres: u32) -> bool {
        true
    }
    fn names_similar(&self, a: &str, b: &str) -> bool {
        a.to_lowercase() == b.to_lowercase()
    }
}

fn empty_engine() -> Engine {
    Engine::from_loaded(vec![], vec![], vec![], vec![], vec![], vec![], vec![])
}

fn run(e: &mut Engine, session: Option<u64>, action: EngineAction) -> InternEngineResponsePackage {
    e.vroom(InternEngineCommand::Command(Box::new(EngineCommand { session, action })), &Plain)
}

fn answer(p: &InternEngineResponsePackage) -> ResponseAction {
    match &p.response {
        InternEngineResponse::DirectResponse(r) => r.response_action.clone(),
        InternEngineResponse::DelayedLoopback(_) => panic!("expected a direct response"),
    }
}

fn broadcast(p: &InternEngineResponsePackage) -> Option<BroadcastAction> {
    match &p.response {
        InternEngineResponse::DirectResponse(r) => r.broadcast_action.clone(),
        InternEngineResponse::DelayedLoopback(_) => panic!("expected a direct response"),
    }
}

fn not_found_text(p: &InternEngineResponsePackage) -> String {
    match answer(p) {
        ResponseAction::Error(Error::NotFound(s)) => s,
        other => panic!("expected NotFound, got {:?}", other),
    }
}

fn add_session(e: &mut Engine, name: &str) {
    let p = run(e, None, EngineAction::AddSession { name: name.to_string(), mode: Mode::Traditional });
    assert!(matches!(answer(&p), ResponseAction::Success));
}

fn add_player(e: &mut Engine, name: &str, passphrase: &str, session: Option<u64>) -> InternEngineResponsePackage {
    run(
        e,
        None,
        EngineAction::AddPlayer {
            name: name.to_string(),
            discord_id: None,
            passphrase: passphrase.to_string(),
            session,
        },
    )
}

#[test]
fn setup_asks_for_the_first_autosave() {
    let mut e = empty_engine();
    let p = e.setup();
    assert!(matches!(answer(&p), ResponseAction::Success));
    let requests = p.runtime_requests.unwrap();
    assert_eq!(requests.len(), 1);
    assert!(matches!(
        requests[0],
        RuntimeRequest::CreateTimer { duration: 2000, payload: InternEngineCommand::AutoSave, id: 1 }
    ));
}

#[test]
fn session_names_are_unique() {
    let mut e = empty_engine();
    add_session(&mut e, "Zürich");
    let p = run(&mut e, None, EngineAction::AddSession { name: "Zürich".to_string(), mode: Mode::Gfrorefurz });
    assert!(matches!(answer(&p), ResponseAction::Error(Error::AlreadyExists)));
    add_session(&mut e, "Bern");
    match answer(&run(&mut e, None, EngineAction::GetState)) {
        ResponseAction::SendGlobalState { sessions, players } => {
            let names: Vec<(u64, String)> = sessions.into_iter().map(|s| (s.id, s.name)).collect();
            assert_eq!(names, vec![(0, "Zürich".to_string()), (1, "Bern".to_string())]);
            assert!(players.is_empty());
        }
        other => panic!("unexpected {:?}", other),
    }
}

#[test]
fn a_player_is_found_by_passphrase() {
    let mut e = empty_engine();
    assert!(matches!(answer(&add_player(&mut e, "Anna", "secret", None)), ResponseAction::Success));
    assert!(matches!(answer(&add_player(&mut e, "Beat", "other", None)), ResponseAction::Success));
    match answer(&run(&mut e, None, EngineAction::GetPlayerByPassphrase("other".to_string()))) {
        ResponseAction::Player(p) => {
            assert_eq!(p.name, "Beat");
            assert_eq!(p.id, 1);
            assert_eq!(p.session, None);
        }
        other => panic!("unexpected {:?}", other),
    }
    let p = run(&mut e, None, EngineAction::GetPlayerByPassphrase("nope".to_string()));
    assert_eq!(not_found_text(&p), "player with passphrase nope");
}

#[test]
fn passphrases_are_unique() {
    let mut e = empty_engine();
    add_player(&mut e, "Anna", "secret", None);
    let p = add_player(&mut e, "Anna 2", "secret", None);
    assert!(matches!(answer(&p), ResponseAction::Error(Error::AlreadyExists)));
}

#[test]
fn commands_go_to_the_right_place() {
    let mut e = empty_engine();
    let p = run(&mut e, None, EngineAction::Start);
    assert!(matches!(answer(&p), ResponseAction::Error(Error::NoSessionSupplied)));
    let p = run(&mut e, Some(4), EngineAction::Start);
    assert_eq!(not_found_text(&p), "session with id 4");
    add_session(&mut e, "Zürich");
    let p = run(&mut e, Some(0), EngineAction::GetAllZones);
    assert!(matches!(answer(&p), ResponseAction::Error(Error::SessionSupplied)));
    let p = run(&mut e, None, EngineAction::RemovePlayer { player: 0 });
    assert!(matches!(answer(&p), ResponseAction::Error(Error::NotImplemented)));
}

#[test]
fn a_ping_is_broadcast() {
    let mut e = empty_engine();
    let p = run(&mut e, None, EngineAction::Ping(Some("hello".to_string())));
    assert!(matches!(answer(&p), ResponseAction::Success));
    assert!(matches!(broadcast(&p), Some(BroadcastAction::Pinged(Some(s))) if s == "hello"));
}

#[test]
fn autosave_saves_only_after_changes() {
    let mut e = empty_engine();
    let p = e.vroom(InternEngineCommand::AutoSave, &Plain);
    let r = p.runtime_requests.unwrap();
    assert!(matches!(r[..], [RuntimeRequest::ScheduleAutoSave]));
    add_player(&mut e, "Anna", "secret", None);
    assert!(e.changes_since_save);
    let p = e.vroom(InternEngineCommand::AutoSave, &Plain);
    match &p.runtime_requests.unwrap()[..] {
        [RuntimeRequest::Save(batch)] => {
            assert_eq!(batch.players.len(), 1);
            assert_eq!(batch.players[0].id, 0);
            assert_eq!(batch.players[0].contents.name, "Anna");
            assert!(batch.sessions.is_empty());
        }
        other => panic!("unexpected {:?}", other),
    }
    assert!(!e.changes_since_save);
    let p = e.vroom(InternEngineCommand::AutoSave, &Plain);
    assert!(matches!(p.runtime_requests.unwrap()[..], [RuntimeRequest::ScheduleAutoSave]));
}

#[test]
fn a_player_moves_between_sessions() {
    let mut e = empty_engine();
    add_session(&mut e, "Zürich");
    add_player(&mut e, "Anna", "secret", None);
    let p = run(&mut e, None, EngineAction::SetPlayerSession { player: 0, session: Some(0) });
    assert!(matches!(answer(&p), ResponseAction::Success));
    match broadcast(&p) {
        Some(BroadcastAction::PlayerChangedSession { player, from_session, to_session }) => {
            assert_eq!(player.name, "Anna");
            assert_eq!(from_session, None);
            assert_eq!(to_session, Some(0));
        }
        other => panic!("unexpected {:?}", other),
    }
    let p = run(&mut e, None, EngineAction::SetPlayerSession { player: 3, session: None });
    assert_eq!(not_found_text(&p), "player with id 3");
}

#[test]
fn zones_and_travel_times() {
    let mut e = empty_engine();
    for zone in [110u64, 120] {
        let p = run(
            &mut e,
            None,
            EngineAction::AddZone {
                zone,
                num_conn_zones: 4,
                num_connections: 7,
                train_through: true,
                mongus: false,
                s_bahn_zone: false,
            },
        );
        assert!(matches!(answer(&p), ResponseAction::Success));
    }
    let p = run(&mut e, None, EngineAction::AddMinutesTo { from_zone: 0, to_zone: 1, minutes: 25 });
    assert!(matches!(answer(&p), ResponseAction::Success));
    let p = run(&mut e, None, EngineAction::AddMinutesTo { from_zone: 0, to_zone: 7, minutes: 25 });
    assert_eq!(not_found_text(&p), "to zone with id 7");
    let p = run(&mut e, None, EngineAction::AddMinutesTo { from_zone: 9, to_zone: 1, minutes: 25 });
    assert_eq!(not_found_text(&p), "from zone with id 9");
    match answer(&run(&mut e, None, EngineAction::GetAllZones)) {
        ResponseAction::SendZones(zones) => {
            assert_eq!(zones.len(), 2);
            assert_eq!((zones[0].id, zones[0].zone), (0, 110));
            assert_eq!(zones[0].minutes_to.get(&1), Some(&25));
            assert_eq!((zones[1].id, zones[1].zone), (1, 120));
        }
        other => panic!("unexpected {:?}", other),
    }
}

#[test]
fn challenge_sets_have_unique_names() {
    let mut e = empty_engine();
    assert!(matches!(answer(&run(&mut e, None, EngineAction::AddChallengeSet("A".to_string()))), ResponseAction::Success));
    assert!(matches!(
        answer(&run(&mut e, None, EngineAction::AddChallengeSet("A".to_string()))),
        ResponseAction::Error(Error::AlreadyExists)
    ));
    match answer(&run(&mut e, None, EngineAction::GetChallengeSets)) {
        ResponseAction::SendChallengeSets(sets) => {
            assert_eq!(sets.len(), 1);
            assert_eq!((sets[0].id, sets[0].name.as_str()), (0, "A"));
        }
        other => panic!("unexpected {:?}", other),
    }
}

#[test]
fn teams_of_a_session() {
    let mut e = empty_engine();
    add_session(&mut e, "Zürich");
    add_player(&mut e, "Anna", "secret", Some(0));
    let p = run(&mut e, Some(0), EngineAction::AddTeam { name: "Blitz".to_string(), discord_channel: None, colour: None });
    assert!(matches!(answer(&p), ResponseAction::Success));
    let p = run(&mut e, Some(0), EngineAction::AddTeam { name: "blitz".to_string(), discord_channel: None, colour: None });
    assert!(matches!(answer(&p), ResponseAction::Error(Error::TeamExists(n)) if n == "Blitz"));
    let p = run(&mut e, Some(0), EngineAction::AssignPlayerToTeam { player: 0, team: Some(0) });
    assert!(matches!(answer(&p), ResponseAction::Success));
    assert!(matches!(
        broadcast(&p),
        Some(BroadcastAction::PlayerChangedTeam { session: 0, player: 0, from_team: None, to_team: Some(0) })
    ));
    let p = run(&mut e, Some(0), EngineAction::RenameTeam { team: 5, new_name: "X".to_string() });
    assert_eq!(not_found_text(&p), "team with id 5");
    let p = run(&mut e, Some(0), EngineAction::RenameTeam { team: 0, new_name: "Donner".to_string() });
    assert!(matches!(answer(&p), ResponseAction::Success));
    let p = run(&mut e, Some(0), EngineAction::MakeTeamCatcher(0));
    assert!(matches!(broadcast(&p), Some(BroadcastAction::TeamMadeCatcher(t)) if t.name == "Donner"));
    let p = run(&mut e, Some(0), EngineAction::Stop);
    assert!(matches!(answer(&p), ResponseAction::Error(Error::GameNotRunning)));
    match answer(&run(&mut e, Some(0), EngineAction::GetEvents)) {
        ResponseAction::SendEvents(events) => assert!(events.is_empty()),
        other => panic!("unexpected {:?}", other),
    }
    match answer(&run(&mut e, Some(0), EngineAction::GetState)) {
        ResponseAction::SendState { teams, events, game } => {
            assert_eq!(teams.len(), 1);
            assert_eq!(teams[0].name, "Donner");
            assert_eq!(teams[0].players.len(), 1);
            assert!(events.is_empty());
            assert!(game.is_none());
        }
        other => panic!("unexpected {:?}", other),
    }
}

#[test]
fn the_game_config_of_a_session() {
    let mut e = empty_engine();
    add_session(&mut e, "Zürich");
    let p = run(
        &mut e,
        Some(0),
        EngineAction::SetGameConfig(PartialGameConfig {
            num_catchers: Some(1),
            start_zone: None,
            start_time: Some(TimeOfDay { secs: 8 * 3600, frac: 0 }),
            end_time: None,
            challenge_sets: None,
        }),
    );
    assert!(matches!(answer(&p), ResponseAction::Success));
    match answer(&run(&mut e, Some(0), EngineAction::GetGameConfig)) {
        ResponseAction::SendGameConfig(c) => {
            assert_eq!(c.num_catchers, 1);
            assert_eq!(c.start_zone, 110);
            assert_eq!(c.start_time, TimeOfDay { secs: 8 * 3600, frac: 0 });
            assert_eq!(c.end_time, TimeOfDay { secs: 17 * 3600, frac: 0 });
        }
        other => panic!("unexpected {:?}", other),
    }
}

fn fix(accuracy: u16, timestamp: i64) -> truinlag::model::DetailedLocation {
    truinlag::model::DetailedLocation {
        latitude: 47.37f32.to_bits(),
        longitude: 8.54f32.to_bits(),
        accuracy,
        heading: 0f32.to_bits(),
        speed: 0f32.to_bits(),
        timestamp,
    }
}

#[test]
fn locations_of_a_team() {
    let mut e = empty_engine();
    add_session(&mut e, "Zürich");
    add_player(&mut e, "Anna", "secret", Some(0));
    run(&mut e, Some(0), EngineAction::AddTeam { name: "Blitz".to_string(), discord_channel: None, colour: None });
    run(&mut e, Some(0), EngineAction::AssignPlayerToTeam { player: 0, team: Some(0) });

    let p = run(&mut e, Some(0), EngineAction::SendLocation { player: 9, location: fix(5, 1000) });
    assert_eq!(not_found_text(&p), "team with the player with id 9");

    let p = run(&mut e, Some(0), EngineAction::SendLocation { player: 0, location: fix(10, 1000) });
    assert!(matches!(broadcast(&p), Some(BroadcastAction::Location { team: 0, location }) if location == fix(10, 1000)));

    // worse and too soon: not taken
    let p = run(&mut e, Some(0), EngineAction::SendLocation { player: 0, location: fix(50, 1005) });
    assert!(matches!(answer(&p), ResponseAction::Success));
    assert!(broadcast(&p).is_none());

    // long enough after the last one: taken
    let p = run(&mut e, Some(0), EngineAction::SendLocation { player: 0, location: fix(50, 1040) });
    assert!(matches!(broadcast(&p), Some(BroadcastAction::Location { team: 0, .. })));

    match answer(&run(&mut e, Some(0), EngineAction::GetLocations)) {
        ResponseAction::SendLocations(v) => {
            assert_eq!(v.len(), 1);
            assert_eq!(v[0].0.location, Some(fix(50, 1040)));
            let times: Vec<i64> = v[0].1.iter().map(|l| l.timestamp).collect();
            assert_eq!(times, vec![1000, 1040]);
        }
        other => panic!("unexpected {:?}", other),
    }
    let p = run(&mut e, Some(0), EngineAction::GetPastLocations { team_id: 3, of_past_seconds: None });
    assert_eq!(not_found_text(&p), "team with id 3");
}

fn session_with_teams(names: &[&str]) -> Engine {
    let mut e = empty_engine();
    add_session(&mut e, "Zürich");
    for name in names {
        let p = run(&mut e, Some(0), EngineAction::AddTeam { name: name.to_string(), discord_channel: None, colour: None });
        assert!(matches!(answer(&p), ResponseAction::Success));
    }
    e
}

fn set_catchers(e: &mut Engine, n: u64) {
    let p = run(
        e,
        Some(0),
        EngineAction::SetGameConfig(PartialGameConfig {
            num_catchers: Some(n),
            start_zone: None,
            start_time: None,
            end_time: None,
            challenge_sets: None,
        }),
    );
    assert!(matches!(answer(&p), ResponseAction::Success));
}

#[test]
fn a_game_needs_more_teams_than_catchers() {
    let mut e = session_with_teams(&["A", "B"]);
    let p = run(&mut e, Some(0), EngineAction::Start);
    match answer(&p) {
        ResponseAction::Error(Error::BadData(s)) => {
            assert_eq!(s, "cannot start game with 3 catchers when there are only 2 teams")
        }
        other => panic!("unexpected {:?}", other),
    }
}

#[test]
fn a_game_needs_its_start_zone() {
    let mut e = session_with_teams(&["A", "B"]);
    set_catchers(&mut e, 1);
    let p = run(&mut e, Some(0), EngineAction::Start);
    assert_eq!(not_found_text(&p), "config start zone");
}

#[test]
fn a_started_game_has_the_configured_catchers() {
    let mut e = session_with_teams(&["A", "B", "C"]);
    set_catchers(&mut e, 2);
    run(
        &mut e,
        None,
        EngineAction::AddZone { zone: 110, num_conn_zones: 4, num_connections: 7, train_through: true, mongus: false, s_bahn_zone: false },
    );
    let p = run(&mut e, Some(0), EngineAction::Start);
    match broadcast(&p) {
        Some(BroadcastAction::Started { teams, .. }) => {
            assert_eq!(teams.len(), 3);
            let catchers = teams.iter().filter(|t| t.role == truinlag::model::TeamRole::Catcher).count();
            assert_eq!(catchers, 2);
        }
        other => panic!("unexpected {:?}", other),
    }
    let p = run(&mut e, Some(0), EngineAction::Start);
    assert!(matches!(answer(&p), ResponseAction::Error(Error::GameInProgress)));
    let p = run(&mut e, Some(0), EngineAction::Stop);
    assert!(matches!(broadcast(&p), Some(BroadcastAction::Ended)));
    assert_eq!(e.records.past_game_db.live_ids(), vec![0]);
}

#[test]
fn a_moved_player_is_in_one_team_only() {
    let mut e = session_with_teams(&["A", "B"]);
    add_player(&mut e, "Anna", "secret", Some(0));
    run(&mut e, Some(0), EngineAction::AssignPlayerToTeam { player: 0, team: Some(0) });
    let p = run(&mut e, Some(0), EngineAction::AssignPlayerToTeam { player: 0, team: Some(1) });
    assert!(matches!(
        broadcast(&p),
        Some(BroadcastAction::PlayerChangedTeam { session: 0, player: 0, from_team: Some(0), to_team: Some(1) })
    ));
    match answer(&run(&mut e, Some(0), EngineAction::GetState)) {
        ResponseAction::SendState { teams, .. } => {
            assert!(teams[0].players.is_empty());
            assert_eq!(teams[1].players.len(), 1);
        }
        other => panic!("unexpected {:?}", other),
    }
    let p = run(&mut e, Some(0), EngineAction::AssignPlayerToTeam { player: 0, team: None });
    assert!(matches!(broadcast(&p), Some(BroadcastAction::PlayerChangedTeam { from_team: Some(1), to_team: None, .. })));
}

#[test]
fn a_catch_swaps_the_roles() {
    let mut e = session_with_teams(&["A", "B", "C"]);
    set_catchers(&mut e, 1);
    run(
        &mut e,
        None,
        EngineAction::AddZone { zone: 110, num_conn_zones: 4, num_connections: 7, train_through: true, mongus: false, s_bahn_zone: false },
    );
    let teams = match broadcast(&run(&mut e, Some(0), EngineAction::Start)) {
        Some(BroadcastAction::Started { teams, .. }) => teams,
        other => panic!("unexpected {:?}", other),
    };
    let catcher = teams.iter().position(|t| t.role == truinlag::model::TeamRole::Catcher).unwrap();
    let runner = teams.iter().position(|t| t.role == truinlag::model::TeamRole::Runner).unwrap();
    let p = run(&mut e, Some(0), EngineAction::Catch { catcher: runner, caught: catcher, period_id: 0 });
    assert!(matches!(answer(&p), ResponseAction::Error(Error::TeamIsRunner(i)) if i == runner));
    let p = run(&mut e, Some(0), EngineAction::Catch { catcher, caught: catcher, period_id: 0 });
    assert!(matches!(answer(&p), ResponseAction::Error(Error::BadData(s)) if s == "a team cannot catch itself"));
    let p = run(&mut e, Some(0), EngineAction::Catch { catcher, caught: runner, period_id: 0 });
    assert!(matches!(answer(&p), ResponseAction::Period(0)));
    assert!(matches!(broadcast(&p), Some(BroadcastAction::Caught { .. })));
    match answer(&run(&mut e, Some(0), EngineAction::GetState)) {
        ResponseAction::SendState { teams, events, .. } => {
            assert_eq!(teams[catcher].role, truinlag::model::TeamRole::Runner);
            assert_eq!(teams[runner].role, truinlag::model::TeamRole::Catcher);
            let catchers = teams.iter().filter(|t| t.role == truinlag::model::TeamRole::Catcher).count();
            assert_eq!(catchers, 1);
            assert_eq!(events.len(), 1);
        }
        other => panic!("unexpected {:?}", other),
    }
}

fn kaff_input(sets: Vec<u64>, zone: Vec<u64>, id: Option<u64>) -> truinlag::model::InputChallenge {
    truinlag::model::InputChallenge {
        kind: truinlag::model::ChallengeType::Kaff,
        sets,
        status: truinlag::model::ChallengeStatus::Approved,
        title: None,
        description: None,
        random_place: None,
        place: Some("Hinteregg".to_string()),
        comment: "nice".to_string(),
        kaffskala: Some(3),
        grade: Some(2),
        zone,
        bias_sat: 1.0f32.to_bits(),
        bias_sun: 1.0f32.to_bits(),
        walking_time: 5,
        stationary_time: 0,
        additional_points: 10,
        repetitions: truinlag::model::Repetitions { start: 0, end: 1 },
        points_per_rep: 0,
        station_distance: 0,
        time_to_hb: 0,
        departures: 0,
        dead_end: false,
        no_disembark: false,
        fixed: false,
        in_perimeter_override: None,
        translated_titles: std::collections::HashMap::new(),
        translated_descriptions: std::collections::HashMap::new(),
        action: None,
        id,
    }
}

#[test]
fn stored_challenges_come_back_with_their_sets_and_zones() {
    let mut e = empty_engine();
    run(&mut e, None, EngineAction::AddChallengeSet("Zürich".to_string()));
    run(
        &mut e,
        None,
        EngineAction::AddZone { zone: 110, num_conn_zones: 4, num_connections: 7, train_through: true, mongus: false, s_bahn_zone: false },
    );
    let p = run(&mut e, None, EngineAction::AddRawChallenge(kaff_input(vec![0], vec![0], None)));
    assert!(matches!(answer(&p), ResponseAction::Success));
    let raw = match answer(&run(&mut e, None, EngineAction::GetRawChallenges)) {
        ResponseAction::SendRawChallenges(v) => v,
        other => panic!("unexpected {:?}", other),
    };
    assert_eq!(raw.len(), 1);
    assert_eq!(raw[0].sets[0].name, "Zürich");
    assert_eq!(raw[0].zone[0].zone, 110);
    assert_eq!(raw[0].id, Some(0));
    let back = truinlag::model::InputChallenge::from_raw(raw[0].clone());
    assert_eq!(back.sets, vec![0]);
    assert_eq!(back.zone, vec![0]);
    assert_eq!(back.id, Some(0));
    assert_eq!(back.place.as_deref(), Some("Hinteregg"));
    let mut changed = back.clone();
    changed.comment = "changed".to_string();
    let p = run(&mut e, None, EngineAction::SetRawChallenge(changed));
    assert!(matches!(answer(&p), ResponseAction::Success));
    let p = run(&mut e, None, EngineAction::SetRawChallenge(kaff_input(vec![0], vec![0], None)));
    assert!(matches!(answer(&p), ResponseAction::Error(_)));
}

#[test]
fn a_grace_period_signal_for_a_missing_team_changes_nothing() {
    let mut e = session_with_teams(&["A"]);
    e.vroom(InternEngineCommand::AutoSave, &Plain);
    assert!(!e.changes_since_save);
    for (session_id, team_id) in [(0u64, 3usize), (7u64, 0usize)] {
        let p = e.vroom(InternEngineCommand::TeamLeftGracePeriod { session_id, team_id }, &Plain);
        assert!(matches!(answer(&p), ResponseAction::Success));
        assert!(broadcast(&p).is_none());
        assert!(p.runtime_requests.is_none());
        assert!(!e.changes_since_save);
    }
    let p = e.vroom(InternEngineCommand::AutoSave, &Plain);
    assert!(matches!(p.runtime_requests.unwrap()[..], [RuntimeRequest::ScheduleAutoSave]));
}

#[test]
fn the_sendable_challenge_keeps_every_field() {
    let mut e = empty_engine();
    run(&mut e, None, EngineAction::AddChallengeSet("Zürich".to_string()));
    run(
        &mut e,
        None,
        EngineAction::AddZone { zone: 110, num_conn_zones: 4, num_connections: 7, train_through: true, mongus: false, s_bahn_zone: false },
    );
    let mut input = kaff_input(vec![0], vec![0], None);
    input.title = Some("Uf em Hügel".to_string());
    input.description = Some("Gönd ufe".to_string());
    input.walking_time = 12;
    input.stationary_time = 3;
    input.station_distance = 250;
    input.time_to_hb = 40;
    input.departures = 4;
    input.dead_end = true;
    input.in_perimeter_override = Some(false);
    input.translated_titles.insert("en".to_string(), "On the hill".to_string());
    let p = run(&mut e, None, EngineAction::AddRawChallenge(input.clone()));
    assert!(matches!(answer(&p), ResponseAction::Success));
    let raw = match answer(&run(&mut e, None, EngineAction::GetRawChallenges)) {
        ResponseAction::SendRawChallenges(v) => v,
        other => panic!("unexpected {:?}", other),
    };
    assert_eq!(raw.len(), 1);
    let c = &raw[0];
    assert_eq!(c.title.as_deref(), Some("Uf em Hügel"));
    assert_eq!(c.description.as_deref(), Some("Gönd ufe"));
    assert_eq!(c.place.as_deref(), Some("Hinteregg"));
    assert_eq!(c.comment, "nice");
    assert_eq!(c.walking_time, 12);
    assert_eq!(c.stationary_time, 3);
    assert_eq!(c.station_distance, 250);
    assert_eq!(c.time_to_hb, 40);
    assert_eq!(c.departures, 4);
    assert!(c.dead_end);
    assert!(!c.no_disembark);
    assert_eq!(c.in_perimeter_override, Some(false));
    assert_eq!(c.additional_points, 10);
    assert_eq!(c.translated_titles.get("en").map(|s| s.as_str()), Some("On the hill"));
    let back = truinlag::model::InputChallenge::from_raw(c.clone());
    assert_eq!(back.title, input.title);
    assert_eq!(back.walking_time, input.walking_time);
    assert_eq!(back.stationary_time, input.stationary_time);
    assert_eq!(back.translated_titles, input.translated_titles);
}

#[test]
fn a_similar_name_is_refused_and_a_new_one_added() {
    let mut s = truinlag::session::Session::new("Zürich".to_string(), Mode::Traditional);
    let p = s.add_team_judged("Füchse".to_string(), Some(9), None, None);
    assert!(matches!(answer(&p), ResponseAction::Success));
    assert_eq!(s.teams.len(), 1);
    assert_eq!(s.teams[0].name, "Füchse");
    assert_eq!(s.teams[0].discord_channel, Some(9));
    let p = s.add_team_judged("FÜCHSE".to_string(), None, None, Some(0));
    assert!(matches!(answer(&p), ResponseAction::Error(Error::TeamExists(n)) if n == "Füchse"));
    assert_eq!(s.teams.len(), 1);
}

#[test]
fn teams_far_apart_cannot_catch() {
    let mut e = session_with_teams(&["A", "B"]);
    set_catchers(&mut e, 1);
    run(
        &mut e,
        None,
        EngineAction::AddZone { zone: 110, num_conn_zones: 4, num_connections: 7, train_through: true, mongus: false, s_bahn_zone: false },
    );
    add_player(&mut e, "Anna", "a", Some(0));
    add_player(&mut e, "Beat", "b", Some(0));
    run(&mut e, Some(0), EngineAction::AssignPlayerToTeam { player: 0, team: Some(0) });
    run(&mut e, Some(0), EngineAction::AssignPlayerToTeam { player: 1, team: Some(1) });
    let teams = match broadcast(&run(&mut e, Some(0), EngineAction::Start)) {
        Some(BroadcastAction::Started { teams, .. }) => teams,
        other => panic!("unexpected {:?}", other),
    };
    let catcher = teams.iter().position(|t| t.role == truinlag::model::TeamRole::Catcher).unwrap();
    let runner = 1 - catcher;
    run(&mut e, Some(0), EngineAction::SendLocation { player: 0, location: fix(5, 1000) });
    run(&mut e, Some(0), EngineAction::SendLocation { player: 1, location: fix(5, 1000) });
    let p = run(&mut e, Some(0), EngineAction::Catch { catcher, caught: runner, period_id: 0 });
    assert!(matches!(answer(&p), ResponseAction::Error(Error::TeamsTooFar)));
    assert!(broadcast(&p).is_none());
}

#[test]
fn a_game_without_a_valid_end_time_is_not_started() {
    let mut e = session_with_teams(&["A", "B"]);
    set_catchers(&mut e, 1);
    let p = run(
        &mut e,
        Some(0),
        EngineAction::SetGameConfig(PartialGameConfig {
            num_catchers: None,
            start_zone: None,
            start_time: None,
            end_time: Some(TimeOfDay { secs: 90000, frac: 0 }),
            challenge_sets: None,
        }),
    );
    assert!(matches!(answer(&p), ResponseAction::Success));
    // the missing start zone is answered first
    let p = run(&mut e, Some(0), EngineAction::Start);
    assert_eq!(not_found_text(&p), "config start zone");
    run(
        &mut e,
        None,
        EngineAction::AddZone { zone: 110, num_conn_zones: 4, num_connections: 7, train_through: true, mongus: false, s_bahn_zone: false },
    );
    let p = run(&mut e, Some(0), EngineAction::Start);
    assert!(matches!(answer(&p), ResponseAction::Error(Error::InternalError)));
    assert!(broadcast(&p).is_none());
    assert!(p.runtime_requests.is_none());
}

#[test]
fn a_catch_asks_for_the_grace_period_alarm() {
    let mut e = session_with_teams(&["A", "B"]);
    set_catchers(&mut e, 1);
    run(
        &mut e,
        None,
        EngineAction::AddZone { zone: 110, num_conn_zones: 4, num_connections: 7, train_through: true, mongus: false, s_bahn_zone: false },
    );
    let teams = match broadcast(&run(&mut e, Some(0), EngineAction::Start)) {
        Some(BroadcastAction::Started { teams, .. }) => teams,
        other => panic!("unexpected {:?}", other),
    };
    let catcher = teams.iter().position(|t| t.role == truinlag::model::TeamRole::Catcher).unwrap();
    let runner = 1 - catcher;
    let p = run(&mut e, Some(0), EngineAction::Catch { catcher, caught: runner, period_id: 0 });
    match &p.runtime_requests.unwrap()[..] {
        [RuntimeRequest::CreateAlarm { payload: InternEngineCommand::TeamLeftGracePeriod { session_id, team_id }, .. }] => {
            assert_eq!((*session_id, *team_id), (0, catcher));
        }
        other => panic!("unexpected {:?}", other),
    }
}
