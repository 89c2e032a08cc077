//! The engine: it holds mirrors of the stored collections, answers commands one after another,
//! hands session commands to their session, and asks the runtime around it for timers, saving
//! and work that is done outside.
use crate::challenge::{ChallengeEntry, ChallengeSetEntry};
use crate::commands::{BroadcastAction, EngineAction, EngineResponse, Error, ResponseAction};
use crate::context::{EngineContext, EngineRecords};
use crate::entries::{PictureEntry, PlayerEntry, ZoneEntry};
use crate::env::GameEnv;
use crate::mirror::{added, lists_live, slot_value, ClonedDBEntry, DBEntry, DBMirror};
use crate::model::{Mode, Player, Zone};
use crate::runtime::{
    answers, not_found, not_found_numbered, InternEngineCommand, InternEngineResponse,
    InternEngineResponsePackage, RuntimeRequest,
};
use crate::session::Session;
use crate::text::decimal;
use crate::timer::TimerTracker;
use crate::world::now_moment;
use std::collections::HashMap;
use vstd::prelude::*;

verus! {

broadcast use vstd::std_specs::hash::group_hash_axioms;

/// The engine's state: mirrors of the stored collections and whether anything changed since
/// the last save.
pub struct Engine {
    pub changes_since_save: bool,
    pub sessions: DBMirror<Session>,
    pub challenges: DBMirror<ChallengeEntry>,
    pub challenge_sets: DBMirror<ChallengeSetEntry>,
    pub zones: DBMirror<ZoneEntry>,
    pub players: DBMirror<PlayerEntry>,
    pub records: EngineRecords,
}

/// What the runtime writes to the database on a save: the entries changed and the ids of the
/// entries deleted since the last save, per collection.
#[derive(Debug, Clone)]
pub struct SaveBatch {
    pub players: Vec<ClonedDBEntry<PlayerEntry>>,
    pub sessions: Vec<ClonedDBEntry<Session>>,
    pub session_deletions: Vec<u64>,
    pub challenges: Vec<ClonedDBEntry<ChallengeEntry>>,
    pub challenge_deletions: Vec<u64>,
    pub challenge_sets: Vec<ClonedDBEntry<ChallengeSetEntry>>,
    pub challenge_set_deletions: Vec<u64>,
    pub zones: Vec<ClonedDBEntry<ZoneEntry>>,
    pub zone_deletions: Vec<u64>,
    pub past_games: Vec<ClonedDBEntry<crate::session::PastGame>>,
    pub pictures: Vec<ClonedDBEntry<PictureEntry>>,
}

/// `zs` are the zones of `zones` that can be read, as clients see them, by increasing id.
pub open spec fn lists_zones(zones: DBMirror<ZoneEntry>, zs: Seq<Zone>) -> bool {
    &&& lists_live(zones@, zs.map_values(|z: Zone| z.id))
    &&& forall|k: int|
        0 <= k < zs.len() ==> zones.spec_get(zs[k].id as int).unwrap().shows_as(zs[k].id, #[trigger] zs[k])
}


/// Whether some entry of `entries` has id `id`, where `entries` lists the readable entries of
/// `s` (as `DBMirror::get_all` gives them): exactly where `id` can be read.
proof fn lemma_listed_iff_live<'a, T>(s: Seq<crate::mirror::Slot<T>>, entries: Seq<DBEntry<'a, T>>, id: u64)
    requires
        lists_live(s, entries.map_values(|e: DBEntry<'a, T>| e.id)),
    ensures
        crate::challenge::id_listed(entries, id) <==> crate::mirror::lookup(s, id as int) is Some,
{
    let ids = entries.map_values(|e: DBEntry<'a, T>| e.id);
    if crate::challenge::id_listed(entries, id) {
        let j = choose|j: int| 0 <= j < entries.len() && entries[j].id == id;
        assert(ids[j] == id);
    }
    if crate::mirror::lookup(s, id as int) is Some {
        let k = choose|k: int| 0 <= k < ids.len() && ids[k] == id;
        assert(entries[k].id == id);
    }
}

/// The stored challenge `c` can be shown to clients: its sets and zones can be read.
pub open spec fn resolvable(c: ChallengeEntry, sets: DBMirror<ChallengeSetEntry>, zones: DBMirror<ZoneEntry>) -> bool {
    &&& forall|k: int| 0 <= k < c.sets@.len() ==> sets.spec_get(#[trigger] c.sets@[k] as int) is Some
    &&& forall|k: int| 0 <= k < c.zone@.len() ==> zones.spec_get(#[trigger] c.zone@[k] as int) is Some
}

/// `rc` is how clients see the stored challenge `c` with id `id`, its sets and zones looked up.
pub open spec fn shows_raw(
    c: ChallengeEntry,
    id: u64,
    sets: DBMirror<ChallengeSetEntry>,
    zones: DBMirror<ZoneEntry>,
    rc: crate::model::RawChallenge,
) -> bool {
    &&& rc.id == Some(id)
    &&& rc.kind == c.kind && rc.status == c.status && rc.kaffskala == c.kaffskala && rc.grade == c.grade
    &&& rc.points_per_rep == c.points_per_rep && rc.additional_points == c.additional_points
    &&& rc.repetitions == c.repetitions && rc.last_edit == c.last_edit
    &&& rc.sets@.len() == c.sets@.len()
    &&& forall|k: int|
        0 <= k < c.sets@.len() ==> (#[trigger] rc.sets@[k]).id == c.sets@[k] && rc.sets@[k].name@ == sets.spec_get(
            c.sets@[k] as int,
        ).unwrap().name@
    &&& rc.zone@.len() == c.zone@.len()
    &&& forall|k: int|
        0 <= k < c.zone@.len() ==> zones.spec_get(c.zone@[k] as int).unwrap().shows_as(c.zone@[k], #[trigger] rc.zone@[k])
}

/// `rs` are the stored challenges of `e` that can be shown, as clients see them, by increasing
/// id.
pub open spec fn lists_raw(e: Engine, rs: Seq<crate::model::RawChallenge>) -> bool {
    &&& forall|k: int|
        0 <= k < rs.len() ==> (#[trigger] rs[k]).id is Some && e.challenges.spec_get(rs[k].id->0 as int) is Some
            && resolvable(e.challenges.spec_get(rs[k].id->0 as int)->0, e.challenge_sets, e.zones)
            && shows_raw(
            e.challenges.spec_get(rs[k].id->0 as int)->0,
            rs[k].id->0,
            e.challenge_sets,
            e.zones,
            rs[k],
        )
    &&& forall|k: int, l: int| 0 <= k < l < rs.len() ==> rs[k].id->0 < rs[l].id->0
    &&& forall|i: int|
        0 <= i < e.challenges@.len() && e.challenges.spec_get(i) is Some && resolvable(
            e.challenges.spec_get(i)->0,
            e.challenge_sets,
            e.zones,
        ) ==> exists|k: int| 0 <= k < rs.len() && rs[k].id == Some(i as u64)
}


/// The test of being different from `p`.
pub open spec fn differs(p: u64) -> spec_fn(u64) -> bool {
    |x: u64| x != p
}

/// `s` without any occurrence of `p`.
pub open spec fn without(s: Seq<u64>, p: u64) -> Seq<u64> {
    s.filter(differs(p))
}

/// The text of the refusal of a challenge without id.
pub open spec fn missing_id_text() -> Seq<char> {
    "the supplied challenge doesn't have an id. this can happen because the RawChallenge::new() method doesn't assign an id. challenges sent from truinlag have an id."@
}

/// The sessions `after` are `before` with `player` removed from every team of session `sid`,
/// if that session can be read (marked as edited then).
pub open spec fn player_dropped_from(before: DBMirror<Session>, after: DBMirror<Session>, sid: u64, player: u64) -> bool {
    match before.spec_get(sid as int) {
        None => after@ == before@,
        Some(s) => exists|s2: Session|
            after@ == before@.update(sid as int, Some((s2, crate::mirror::DBStatus::Edited)))
                && #[trigger] teams_without(s, s2, player),
    }
}

/// `s2` is session `s` with `player` removed from every team.
pub open spec fn teams_without(s: Session, s2: Session, player: u64) -> bool {
    &&& s2 == (Session { teams: s2.teams, ..s })
    &&& s2.teams@.len() == s.teams@.len()
    &&& forall|i: int|
        0 <= i < s.teams@.len() ==> #[trigger] s2.teams@[i] == (crate::team::TeamEntry {
            players: s2.teams@[i].players,
            ..s.teams@[i]
        }) && s2.teams@[i].players@ == without(s.teams@[i].players@, player)
}


/// `after` is `before` with the travel time from zone `from` to zone `to` set to `minutes`, the
/// zone `from` marked as edited.
pub open spec fn minutes_set(before: DBMirror<ZoneEntry>, after: DBMirror<ZoneEntry>, from: u64, to: u64, minutes: u64) -> bool {
    let z0 = before.spec_get(from as int)->0;
    &&& after@ == before@.update(from as int, after@[from as int])
    &&& after@[from as int] matches Some((z, st))
    &&& st == crate::mirror::DBStatus::Edited
    &&& z == (ZoneEntry { minutes_to: z.minutes_to, ..z0 })
    &&& z.minutes_to@ == z0.minutes_to@.insert(to, minutes)
}

/// Some session of `sessions` (also one being deleted) is named `name`.
pub open spec fn session_named(sessions: DBMirror<Session>, name: Seq<char>) -> bool {
    exists|i: int| 0 <= i < sessions@.len() && sessions@[i] is Some && (#[trigger] slot_value(sessions@[i])).name@ == name
}

/// Some challenge set of `sets` (also one being deleted) is named `name`.
pub open spec fn set_named(sets: DBMirror<ChallengeSetEntry>, name: Seq<char>) -> bool {
    exists|i: int| 0 <= i < sets@.len() && sets@[i] is Some && (#[trigger] slot_value(sets@[i])).name@ == name
}

/// Some player of `players` (also one being deleted) has passphrase `passphrase`.
pub open spec fn passphrase_taken(players: DBMirror<PlayerEntry>, passphrase: Seq<char>) -> bool {
    exists|i: int| 0 <= i < players@.len() && players@[i] is Some && (#[trigger] slot_value(players@[i])).passphrase@ == passphrase
}

/// `i` is the lowest id of a readable player of `players` with passphrase `passphrase`.
pub open spec fn first_player_with(players: DBMirror<PlayerEntry>, passphrase: Seq<char>, i: int) -> bool {
    &&& 0 <= i < players@.len()
    &&& crate::mirror::slot_live(players@[i])
    &&& slot_value(players@[i]).passphrase@ == passphrase
    &&& forall|j: int| 0 <= j < i && crate::mirror::slot_live(players@[j]) ==> (#[trigger] slot_value(players@[j])).passphrase@ != passphrase
}


/// `ids` without any occurrence of `player`.
fn remove_all(ids: &Vec<u64>, player: u64) -> (r: Vec<u64>)
    ensures
        r@ == without(ids@, player),
{
    let ghost pred = differs(player);
    let mut r: Vec<u64> = Vec::new();
    let mut k: usize = 0;
    while k < ids.len()
        invariant
            k <= ids@.len(),
            pred == differs(player),
            r@ == ids@.take(k as int).filter(pred),
        decreases ids@.len() - k,
    {
        proof {
            assert(ids@.take(k + 1) =~= ids@.take(k as int).push(ids@[k as int]));
            ids@.take(k as int).lemma_filter_push(ids@[k as int], pred);
        }
        if ids[k] != player {
            r.push(ids[k]);
        }
        k = k + 1;
    }
    assert(ids@.take(ids@.len() as int) =~= ids@);
    r
}

/// Removes `player` from every team of session `sid`, if that session can be read.
fn drop_player(sessions: &mut DBMirror<Session>, sid: u64, player: u64)
    ensures
        player_dropped_from(*old(sessions), *final(sessions), sid, player),
{
    match sessions.get_mut(sid) {
        None => {},
        Some(s) => {
            let ghost s0 = *s;
            let mut i: usize = 0;
            while i < s.teams.len()
                invariant
                    *s == (Session { teams: s.teams, ..s0 }),
                    s.teams@.len() == s0.teams@.len(),
                    i <= s0.teams@.len(),
                    forall|j: int|
                        0 <= j < i ==> #[trigger] s.teams@[j] == (crate::team::TeamEntry {
                            players: s.teams@[j].players,
                            ..s0.teams@[j]
                        }) && s.teams@[j].players@ == without(s0.teams@[j].players@, player),
                    forall|j: int| i <= j < s0.teams@.len() ==> #[trigger] s.teams@[j] == s0.teams@[j],
                decreases s0.teams@.len() - i,
            {
                let kept = remove_all(&s.teams[i].players, player);
                s.teams[i].players = kept;
                i = i + 1;
            }
            assert(teams_without(s0, *s, player));
        },
    }
}


/// Player `player`, stored as `pe`, was moved to session `session`: see
/// `Engine::set_player_session`.
pub open spec fn player_session_set(
    e0: Engine,
    e1: Engine,
    player: u64,
    pe: PlayerEntry,
    session: Option<u64>,
    p: InternEngineResponsePackage,
) -> bool {
    let marked = |q: PlayerEntry| e1.players@ == e0.players@.update(player as int, Some((q, crate::mirror::DBStatus::Edited)));
    let dropped = match pe.session {
        Some(t) => player_dropped_from(e0.sessions, e1.sessions, t, player),
        None => e1.sessions@ == e0.sessions@,
    };
    let moved = PlayerEntry { session, ..pe };
    let broadcast = p.runtime_requests is None && {
        &&& p.response matches InternEngineResponse::DirectResponse(r)
        &&& r.response_action == ResponseAction::Success
        &&& r.broadcast_action matches Some(BroadcastAction::PlayerChangedSession { player: shown, from_session, to_session })
        &&& moved.shows_as(player, shown)
        &&& from_session == pe.session
        &&& to_session == session
    };
    if pe.session == session {
        marked(pe) && e1.sessions@ == e0.sessions@ && answers(p, ResponseAction::Success)
    } else {
        dropped && match session {
            None => marked(moved) && broadcast,
            Some(sid) => if e0.sessions.spec_get(sid as int) is Some {
                marked(moved) && broadcast
            } else {
                marked(pe) && not_found(p, "session with id "@ + decimal(sid))
            },
        }
    }
}


/// Whether the picture with id `id` is answered when pictures (or, for `thumbnails`,
/// thumbnails) are asked for.
pub open spec fn shows_picture(db: DBMirror<PictureEntry>, id: u64, thumbnails: bool) -> bool {
    match db.spec_get(id as int) {
        Some(PictureEntry::Profile { .. }) => true,
        Some(PictureEntry::ChallengePicture(_)) => !thumbnails,
        None => false,
    }
}

/// `pic` is the picture with id `id` as answered (see `shows_picture`).
pub open spec fn picture_of(db: DBMirror<PictureEntry>, id: u64, thumbnails: bool, pic: crate::model::Picture) -> bool {
    &&& pic.id == id
    &&& pic.is_thumbnail == thumbnails
    &&& match db.spec_get(id as int) {
        Some(PictureEntry::Profile { thumb, full }) => pic.data.bytes() == if thumbnails {
            thumb.bytes()
        } else {
            full.bytes()
        },
        Some(PictureEntry::ChallengePicture(c)) => pic.data.bytes() == c.bytes(),
        None => false,
    }
}

/// `pics` are the pictures with the ids `ids` that are answered, in that order.
pub open spec fn pictures_listed(db: DBMirror<PictureEntry>, ids: Seq<u64>, thumbnails: bool, pics: Seq<crate::model::Picture>) -> bool {
    let picked = ids.filter(|id: u64| shows_picture(db, id, thumbnails));
    &&& pics.len() == picked.len()
    &&& forall|l: int| 0 <= l < pics.len() ==> picture_of(db, picked[l], thumbnails, #[trigger] pics[l])
}

/// The zones were asked for: what the engine `e0` becomes (`e1`) and answers (`p`).
pub open spec fn handles_get_all_zones(
    e0: Engine,
    p: InternEngineResponsePackage,
) -> bool {
    &&& (p.runtime_requests is None)
    &&& (({
                    &&& p.response matches InternEngineResponse::DirectResponse(r)
                    &&& r.broadcast_action is None
                    &&& r.response_action matches ResponseAction::SendZones(zs)
                    &&& lists_zones(e0.zones, zs@)
                }))
}

/// The stored challenges were asked for: what the engine `e0` becomes (`e1`) and answers (`p`).
pub open spec fn handles_get_raw_challenges(
    e0: Engine,
    p: InternEngineResponsePackage,
) -> bool {
    &&& (p.runtime_requests is None)
    &&& (({
                    &&& p.response matches InternEngineResponse::DirectResponse(r)
                    &&& r.broadcast_action is None
                    &&& r.response_action matches ResponseAction::SendRawChallenges(rs)
                    &&& lists_raw(e0, rs@)
                }))
}

/// A zone was added: what the engine `e0` becomes (`e1`) and answers (`p`).
pub open spec fn handles_add_zone(
    e0: Engine,
    e1: Engine,
    zone: u64,
    num_conn_zones: u64,
    num_connections: u64,
    train_through: bool,
    mongus: bool,
    s_bahn_zone: bool,
    p: InternEngineResponsePackage,
) -> bool {
    &&& (e1 == (Engine { zones: e1.zones, ..e0 }))
    &&& (e0.zones@.len() >= usize::MAX ==> e1.zones == e0.zones && answers(
                    p,
                    ResponseAction::Error(Error::InternalError),
                ))
    &&& (e0.zones@.len() < usize::MAX ==> answers(p, ResponseAction::Success) && exists|id: int, z: ZoneEntry|
                    #[trigger] added(e0.zones@, e1.zones@, id, z) && z.zone == zone
                        && z.num_conn_zones == num_conn_zones && z.num_connections == num_connections
                        && z.train_through == train_through && z.mongus == mongus && z.s_bahn_zone
                        == s_bahn_zone && z.minutes_to@ == Map::<u64, u64>::empty())
}

/// A travel time was set: what the engine `e0` becomes (`e1`) and answers (`p`).
pub open spec fn handles_add_minutes_to(
    e0: Engine,
    e1: Engine,
    from_zone: u64,
    to_zone: u64,
    minutes: u64,
    p: InternEngineResponsePackage,
) -> bool {
    &&& (e1 == (Engine { zones: e1.zones, ..e0 }))
    &&& (e0.zones.spec_get(to_zone as int) is None ==> e1.zones == e0.zones
                    && not_found(p, "to zone with id "@ + decimal(to_zone)))
    &&& (e0.zones.spec_get(to_zone as int) is Some && e0.zones.spec_get(from_zone as int) is None
                    ==> e1.zones@ == e0.zones@ && not_found(p, "from zone with id "@ + decimal(from_zone)))
    &&& (e0.zones.spec_get(to_zone as int) is Some && e0.zones.spec_get(from_zone as int) is Some
                    ==> answers(p, ResponseAction::Success) && minutes_set(
                    e0.zones,
                    e1.zones,
                    from_zone,
                    to_zone,
                    minutes,
                ))
}

/// A stored challenge was replaced: what the engine `e0` becomes (`e1`) and answers (`p`).
pub open spec fn handles_set_raw_challenge(
    e0: Engine,
    e1: Engine,
    challenge: crate::model::InputChallenge,
    now: crate::model::Moment,
    p: InternEngineResponsePackage,
) -> bool {
    &&& (e1 == (Engine { challenges: e1.challenges, ..e0 }))
    &&& (match challenge.id {
                    None => e1.challenges == e0.challenges && crate::runtime::bad_data(p, missing_id_text()),
                    Some(id) => if e0.challenges.spec_get(id as int) is None {
                        e1.challenges@ == e0.challenges@ && not_found(p, "challenge with id "@ + decimal(id))
                    } else {
                        answers(p, ResponseAction::Success) && e1.challenges@ == e0.challenges@.update(
                            id as int,
                            Some((crate::challenge::stored_from(challenge, now), crate::mirror::DBStatus::Edited)),
                        )
                    },
                })
}

/// A challenge was stored: what the engine `e0` becomes (`e1`) and answers (`p`).
pub open spec fn handles_add_raw_challenge(
    e0: Engine,
    e1: Engine,
    challenge: crate::model::InputChallenge,
    now: crate::model::Moment,
    p: InternEngineResponsePackage,
) -> bool {
    &&& (e1 == (Engine { challenges: e1.challenges, ..e0 }))
    &&& (e0.challenges@.len() >= usize::MAX ==> e1.challenges == e0.challenges
                    && answers(p, ResponseAction::Error(Error::InternalError)))
    &&& (e0.challenges@.len() < usize::MAX ==> answers(p, ResponseAction::Success) && exists|id: int|
                    #[trigger] added(e0.challenges@, e1.challenges@, id, crate::challenge::stored_from(challenge, now)))
}

/// All challenges were deleted: what the engine `e0` becomes (`e1`) and answers (`p`).
pub open spec fn handles_delete_all_challenges(
    e0: Engine,
    e1: Engine,
    p: InternEngineResponsePackage,
) -> bool {
    &&& (e1 == (Engine { challenges: e1.challenges, ..e0 }))
    &&& (e1.challenges@ == crate::mirror::after_delete_all(e0.challenges@))
    &&& (answers(p, ResponseAction::Success))
}

/// A player was asked for by passphrase: what the engine `e0` becomes (`e1`) and answers (`p`).
pub open spec fn handles_get_player_by_passphrase(
    e0: Engine,
    passphrase: String,
    p: InternEngineResponsePackage,
) -> bool {
    &&& ((forall|i: int|
                    0 <= i < e0.players@.len() && crate::mirror::slot_live(e0.players@[i]) ==> slot_value(e0.players@[i]).passphrase@
                        != passphrase@) ==> not_found(p, "player with passphrase "@ + passphrase@))
    &&& (forall|i: int|
                    first_player_with(e0.players, passphrase@, i) ==> p.runtime_requests is None && ({
                        &&& p.response matches InternEngineResponse::DirectResponse(r)
                        &&& r.broadcast_action is None
                        &&& r.response_action matches ResponseAction::Player(pl)
                        &&& slot_value(e0.players@[i]).shows_as(i as u64, pl)
                    }))
}

/// A session was added: what the engine `e0` becomes (`e1`) and answers (`p`).
pub open spec fn handles_add_session(
    e0: Engine,
    e1: Engine,
    name: String,
    mode: Mode,
    p: InternEngineResponsePackage,
) -> bool {
    &&& (e1 == (Engine { sessions: e1.sessions, ..e0 }))
    &&& (session_named(e0.sessions, name@) ==> e1.sessions == e0.sessions
                    && answers(p, ResponseAction::Error(Error::AlreadyExists)))
    &&& (!session_named(e0.sessions, name@) && e0.sessions@.len() >= usize::MAX
                    ==> e1.sessions == e0.sessions && answers(p, ResponseAction::Error(Error::InternalError)))
    &&& (!session_named(e0.sessions, name@) && e0.sessions@.len() < usize::MAX ==> answers(
                    p,
                    ResponseAction::Success,
                ) && exists|id: int, s: Session|
                    #[trigger] added(e0.sessions@, e1.sessions@, id, s) && s.name == name && s.mode == mode
                        && s.teams@.len() == 0 && s.game is None && s.config.overrides_nothing())
}

/// A player was added: what the engine `e0` becomes (`e1`) and answers (`p`).
pub open spec fn handles_add_player(
    e0: Engine,
    e1: Engine,
    name: String,
    discord_id: Option<u64>,
    passphrase: String,
    session: Option<u64>,
    p: InternEngineResponsePackage,
) -> bool {
    &&& (e1 == (Engine { players: e1.players, ..e0 }))
    &&& (passphrase_taken(e0.players, passphrase@) ==> e1.players == e0.players
                    && answers(p, ResponseAction::Error(Error::AlreadyExists)))
    &&& (!passphrase_taken(e0.players, passphrase@) && e0.players@.len() >= usize::MAX
                    ==> e1.players == e0.players && answers(p, ResponseAction::Error(Error::InternalError)))
    &&& (!passphrase_taken(e0.players, passphrase@) && e0.players@.len() < usize::MAX ==> answers(
                    p,
                    ResponseAction::Success,
                ) && exists|id: int|
                    #[trigger] added(
                        e0.players@,
                        e1.players@,
                        id,
                        PlayerEntry { picture: None, name, passphrase, discord_id, session },
                    ))
}

/// A player was moved to a session: what the engine `e0` becomes (`e1`) and answers (`p`).
pub open spec fn handles_set_player_session(
    e0: Engine,
    e1: Engine,
    player: u64,
    session: Option<u64>,
    p: InternEngineResponsePackage,
) -> bool {
    &&& (e1 == (Engine { players: e1.players, sessions: e1.sessions, ..e0 }))
    &&& (match e0.players.spec_get(player as int) {
                    None => e1.players@ == e0.players@ && e1.sessions == e0.sessions
                        && not_found(p, "player with id "@ + decimal(player)),
                    Some(pe) => player_session_set(e0, e1, player, pe, session, p),
                })
}

/// A player was renamed: what the engine `e0` becomes (`e1`) and answers (`p`).
pub open spec fn handles_set_player_name(
    e0: Engine,
    e1: Engine,
    player: u64,
    name: String,
    p: InternEngineResponsePackage,
) -> bool {
    &&& (e1 == (Engine { players: e1.players, ..e0 }))
    &&& (match e0.players.spec_get(player as int) {
                    None => e1.players@ == e0.players@ && not_found(p, "player with id "@ + decimal(player)),
                    Some(pe) => answers(p, ResponseAction::Success) && e1.players@ == e0.players@.update(
                        player as int,
                        Some((PlayerEntry { name, ..pe }, crate::mirror::DBStatus::Edited)),
                    ),
                })
}

/// A player's passphrase was changed: what the engine `e0` becomes (`e1`) and answers (`p`).
pub open spec fn handles_set_player_passphrase(
    e0: Engine,
    e1: Engine,
    player: u64,
    passphrase: String,
    p: InternEngineResponsePackage,
) -> bool {
    &&& (e1 == (Engine { players: e1.players, ..e0 }))
    &&& (match e0.players.spec_get(player as int) {
                    None => e1.players@ == e0.players@ && not_found(p, "player with id "@ + decimal(player)),
                    Some(pe) => answers(p, ResponseAction::Success) && e1.players@ == e0.players@.update(
                        player as int,
                        Some((PlayerEntry { passphrase, ..pe }, crate::mirror::DBStatus::Edited)),
                    ),
                })
}

/// A ping came in: what the engine `e0` becomes (`e1`) and answers (`p`).
pub open spec fn handles_ping(
    e0: Engine,
    payload: Option<String>,
    p: InternEngineResponsePackage,
) -> bool {
    &&& (p == (InternEngineResponsePackage {
                    response: InternEngineResponse::DirectResponse(
                        EngineResponse {
                            response_action: ResponseAction::Success,
                            broadcast_action: Some(BroadcastAction::Pinged(payload)),
                        },
                    ),
                    runtime_requests: None,
                }))
}

/// The global state was asked for: what the engine `e0` becomes (`e1`) and answers (`p`).
pub open spec fn handles_get_global_state(
    e0: Engine,
    p: InternEngineResponsePackage,
) -> bool {
    &&& (p.runtime_requests is None)
    &&& (({
                    &&& p.response matches InternEngineResponse::DirectResponse(r)
                    &&& r.broadcast_action is None
                    &&& r.response_action matches ResponseAction::SendGlobalState { sessions, players }
                    &&& lists_live(e0.sessions@, sessions@.map_values(|g: crate::model::GameSession| g.id))
                    &&& forall|k: int|
                        0 <= k < sessions@.len() ==> {
                            let s = e0.sessions.spec_get(sessions@[k].id as int)->0;
                            (#[trigger] sessions@[k]).name@ == s.name@ && sessions@[k].mode == s.mode
                        }
                    &&& lists_live(e0.players@, players@.map_values(|q: Player| q.id))
                    &&& forall|k: int|
                        0 <= k < players@.len() ==> e0.players.spec_get(players@[k].id as int)->0.shows_as(
                            players@[k].id,
                            #[trigger] players@[k],
                        )
                }))
}

/// A challenge set was added: what the engine `e0` becomes (`e1`) and answers (`p`).
pub open spec fn handles_add_challenge_set(
    e0: Engine,
    e1: Engine,
    name: String,
    p: InternEngineResponsePackage,
) -> bool {
    &&& (e1 == (Engine { challenge_sets: e1.challenge_sets, ..e0 }))
    &&& (set_named(e0.challenge_sets, name@) ==> e1.challenge_sets == e0.challenge_sets
                    && answers(p, ResponseAction::Error(Error::AlreadyExists)))
    &&& (!set_named(e0.challenge_sets, name@) && e0.challenge_sets@.len() >= usize::MAX
                    ==> e1.challenge_sets == e0.challenge_sets && answers(p, ResponseAction::Error(Error::InternalError)))
    &&& (!set_named(e0.challenge_sets, name@) && e0.challenge_sets@.len() < usize::MAX ==> answers(
                    p,
                    ResponseAction::Success,
                ) && exists|id: int|
                    #[trigger] added(e0.challenge_sets@, e1.challenge_sets@, id, ChallengeSetEntry { name }))
}

/// The challenge sets were asked for: what the engine `e0` becomes (`e1`) and answers (`p`).
pub open spec fn handles_get_challenge_sets(
    e0: Engine,
    p: InternEngineResponsePackage,
) -> bool {
    &&& (p.runtime_requests is None)
    &&& (({
                    &&& p.response matches InternEngineResponse::DirectResponse(r)
                    &&& r.broadcast_action is None
                    &&& r.response_action matches ResponseAction::SendChallengeSets(sets)
                    &&& lists_live(e0.challenge_sets@, sets@.map_values(|c: crate::model::ChallengeSet| c.id))
                    &&& forall|k: int|
                        0 <= k < sets@.len() ==> (#[trigger] sets@[k]).name@ == e0.challenge_sets.spec_get(sets@[k].id as int)->0.name@
                }))
}

/// Pictures were asked for: what the engine `e0` becomes (`e1`) and answers (`p`).
pub open spec fn handles_get_pictures(
    e0: Engine,
    ids: Seq<u64>,
    thumbnails: bool,
    p: InternEngineResponsePackage,
) -> bool {
    &&& (p.runtime_requests is None)
    &&& (({
                    &&& p.response matches InternEngineResponse::DirectResponse(r)
                    &&& r.broadcast_action is None
                    &&& r.response_action matches ResponseAction::Pictures(pics)
                    &&& pictures_listed(e0.records.picture_db, ids, thumbnails, pics@)
                }))
}

/// A player's profile picture came in: what the engine `e0` becomes (`e1`) and answers (`p`).
pub open spec fn handles_upload_player_picture(
    e0: Engine,
    player_id: u64,
    picture: crate::model::RawPicture,
    p: InternEngineResponsePackage,
) -> bool {
    &&& (e0.players.spec_get(player_id as int) is None ==> not_found(p, "player with id "@ + decimal(player_id)))
    &&& (e0.players.spec_get(player_id as int) is Some ==> p == (InternEngineResponsePackage {
                    response: InternEngineResponse::DelayedLoopback(
                        crate::runtime::OutsideWork::MakePlayerProfile { player_id, picture },
                    ),
                    runtime_requests: None,
                }))
}

/// A player's converted profile picture came in: what the engine `e0` becomes (`e1`) and answers (`p`).
pub open spec fn handles_set_player_picture(
    e0: Engine,
    e1: Engine,
    player_id: u64,
    profile: Option<PictureEntry>,
    p: InternEngineResponsePackage,
) -> bool {
    &&& (e1 == (Engine {
                    players: e1.players,
                    records: EngineRecords { picture_db: e1.records.picture_db, ..e0.records },
                    ..e0
                }))
    &&& (match e0.players.spec_get(player_id as int) {
                    None => e1.players@ == e0.players@ && e1.records == e0.records
                        && not_found(p, "player with id "@ + decimal(player_id)),
                    Some(pe) => match profile {
                        None => e1.players@ == e0.players@ && e1.records == e0.records
                            && answers(p, ResponseAction::Error(Error::PictureProblem)),
                        Some(e) => {
                            ||| e0.records.picture_db@.len() >= usize::MAX && e1.players@ == e0.players@
                                && e1.records == e0.records && answers(p, ResponseAction::Error(Error::InternalError))
                            ||| answers(p, ResponseAction::Success) && exists|id: u64|
                                #[trigger] added(e0.records.picture_db@, e1.records.picture_db@, id as int, e)
                                    && e1.players@ == e0.players@.update(
                                    player_id as int,
                                    Some((PlayerEntry { picture: Some(id), ..pe }, crate::mirror::DBStatus::Edited)),
                                )
                        },
                    },
                })
}


/// What engine `e0` becomes (`e1`) and answers (`p`) for the global command `action`, handled at
/// `now`. Session commands are refused with `NoSessionSupplied`.
pub open spec fn engine_handles(e0: Engine, e1: Engine, action: EngineAction, now: crate::model::Moment, p: InternEngineResponsePackage) -> bool {
    let same = e1 == e0;
    match action {
        EngineAction::GetAllZones => same && handles_get_all_zones(e0, p),
        EngineAction::AddZone { zone, num_conn_zones, num_connections, train_through, mongus, s_bahn_zone } =>
            handles_add_zone(e0, e1, zone, num_conn_zones, num_connections, train_through, mongus, s_bahn_zone, p),
        EngineAction::AddMinutesTo { from_zone, to_zone, minutes } => handles_add_minutes_to(e0, e1, from_zone, to_zone, minutes, p),
        EngineAction::GetRawChallenges => same && handles_get_raw_challenges(e0, p),
        EngineAction::SetRawChallenge(c) => handles_set_raw_challenge(e0, e1, c, now, p),
        EngineAction::AddRawChallenge(c) => handles_add_raw_challenge(e0, e1, c, now, p),
        EngineAction::DeleteAllChallenges => handles_delete_all_challenges(e0, e1, p),
        EngineAction::GetPlayerByPassphrase(pass) => same && handles_get_player_by_passphrase(e0, pass, p),
        EngineAction::AddSession { name, mode } => handles_add_session(e0, e1, name, mode, p),
        EngineAction::AddPlayer { name, discord_id, passphrase, session } => handles_add_player(e0, e1, name, discord_id, passphrase, session, p),
        EngineAction::SetPlayerSession { player, session } => handles_set_player_session(e0, e1, player, session, p),
        EngineAction::SetPlayerName { player, name } => handles_set_player_name(e0, e1, player, name, p),
        EngineAction::SetPlayerPassphrase { player, passphrase } => handles_set_player_passphrase(e0, e1, player, passphrase, p),
        EngineAction::RemovePlayer { .. } => same && answers(p, ResponseAction::Error(Error::NotImplemented)),
        EngineAction::Ping(payload) => same && handles_ping(e0, payload, p),
        EngineAction::GetState => same && handles_get_global_state(e0, p),
        EngineAction::AddChallengeSet(name) => handles_add_challenge_set(e0, e1, name, p),
        EngineAction::GetChallengeSets => same && handles_get_challenge_sets(e0, p),
        EngineAction::GetThumbnails(ids) => same && handles_get_pictures(e0, ids@, true, p),
        EngineAction::GetPictures(ids) => same && handles_get_pictures(e0, ids@, false, p),
        EngineAction::UploadPlayerPicture { player_id, picture } => same && handles_upload_player_picture(e0, player_id, picture, p),
        _ => same && answers(p, ResponseAction::Error(Error::NoSessionSupplied)),
    }
}


/// An autosave signal came to engine `e0`: where something changed since the last save, `e1`
/// is `e0` saved and `p` asks for the save (the runtime sends the next signal after it);
/// otherwise nothing changes and `p` asks for the next signal.
pub open spec fn autosaves(e0: Engine, e1: Engine, p: InternEngineResponsePackage) -> bool {
    &&& p.response == InternEngineResponse::DirectResponse(
        EngineResponse { response_action: ResponseAction::Success, broadcast_action: None },
    )
    &&& p.runtime_requests matches Some(v)
    &&& v@.len() == 1
    &&& if e0.changes_since_save {
        v@[0] matches RuntimeRequest::Save(b) && saved(e0, e1, b)
    } else {
        e1 == e0 && v@[0] == RuntimeRequest::ScheduleAutoSave
    }
}

/// The entries `changes` list the entries of `s` that were edited, by increasing id, each a
/// clone of the stored one.
pub open spec fn lists_changes<T: Clone>(s: Seq<crate::mirror::Slot<T>>, changes: Seq<ClonedDBEntry<T>>) -> bool {
    &&& crate::mirror::lists_status(s, changes.map_values(|c: ClonedDBEntry<T>| c.id), crate::mirror::DBStatus::Edited)
    &&& forall|k: int| 0 <= k < changes.len() ==> cloned(slot_value(s[changes[k].id as int]), #[trigger] changes[k].contents)
}

/// The slots `s` after a save: edits taken, pending deletions turned into deletions in progress,
/// and deletions in progress taken.
pub open spec fn after_save<T>(s: Seq<crate::mirror::Slot<T>>) -> Seq<crate::mirror::Slot<T>> {
    crate::mirror::after_extract_deletions(crate::mirror::after_clear_pending(crate::mirror::after_extract_changes(s)))
}

/// The deletions `ids` list the entries of `s` that a save deletes: those to be deleted (the
/// slots of entries whose deletion was in progress are freed first).
pub open spec fn lists_deletions<T>(s: Seq<crate::mirror::Slot<T>>, ids: Seq<u64>) -> bool {
    crate::mirror::lists_status(
        crate::mirror::after_clear_pending(crate::mirror::after_extract_changes(s)),
        ids,
        crate::mirror::DBStatus::ToBeDeleted,
    )
}

/// `b` holds what a save of engine `e0` writes, and `e1` is `e0` after it.
pub open spec fn saved(e0: Engine, e1: Engine, b: SaveBatch) -> bool {
    &&& !e1.changes_since_save
    &&& e1.players@ == after_save(e0.players@)
    &&& lists_changes(e0.players@, b.players@)
    &&& e1.sessions@ == after_save(e0.sessions@)
    &&& lists_changes(e0.sessions@, b.sessions@)
    &&& lists_deletions(e0.sessions@, b.session_deletions@)
    &&& e1.challenges@ == after_save(e0.challenges@)
    &&& lists_changes(e0.challenges@, b.challenges@)
    &&& lists_deletions(e0.challenges@, b.challenge_deletions@)
    &&& e1.challenge_sets@ == after_save(e0.challenge_sets@)
    &&& lists_changes(e0.challenge_sets@, b.challenge_sets@)
    &&& lists_deletions(e0.challenge_sets@, b.challenge_set_deletions@)
    &&& e1.zones@ == after_save(e0.zones@)
    &&& lists_changes(e0.zones@, b.zones@)
    &&& lists_deletions(e0.zones@, b.zone_deletions@)
    &&& e1.records.past_game_db@ == crate::mirror::after_extract_changes(e0.records.past_game_db@)
    &&& lists_changes(e0.records.past_game_db@, b.past_games@)
    &&& e1.records.picture_db@ == crate::mirror::after_extract_changes(e0.records.picture_db@)
    &&& lists_changes(e0.records.picture_db@, b.pictures@)
    &&& e1.records.timer_tracker == e0.records.timer_tracker
}


/// `e1` is `e0` with session `id` replaced by `s1` (marked as edited), what the session's
/// command left of the engine's records being `records`, and anything changed since the last
/// save.
pub open spec fn session_replaced(e0: Engine, e1: Engine, id: u64, s1: Session, records: EngineRecords) -> bool {
    &&& e1 == (Engine { sessions: e1.sessions, records, changes_since_save: true, ..e0 })
    &&& e1.sessions@ == e0.sessions@.update(id as int, Some((s1, crate::mirror::DBStatus::Edited)))
}

/// What engine `e0` becomes (`e1`) and answers (`p`) for `command`: a client's command goes to
/// its session (`session_handles`) or is handled globally (`engine_handles`), a grace period's
/// end and converted profile pictures go to their team or player, stored pictures are
/// reported, and an autosave signal saves (`autosaves`). Everything but stored pictures and
/// autosaves counts as a change to be saved.
pub open spec fn engine_vroom(e0: Engine, e1: Engine, command: InternEngineCommand, p: InternEngineResponsePackage) -> bool {
    let changed = Engine { changes_since_save: true, ..e0 };
    match command {
        InternEngineCommand::Command(c) => match c.session {
            None => exists|now: crate::model::Moment| #[trigger] engine_handles(changed, e1, c.action, now, p),
            Some(id) => match e0.sessions.spec_get(id as int) {
                None => e1.sessions@ == e0.sessions@ && e1 == (Engine { sessions: e1.sessions, ..changed })
                    && not_found(p, "session with id "@ + decimal(id)),
                Some(s0) => exists|
                    s1: Session,
                    records: EngineRecords,
                    ctx: EngineContext,
                    sc: crate::context::SessionContext,
                    now: crate::model::Moment,
                    time: crate::model::TimeOfDay,
                |
                    e0.lends(ctx) && session_replaced(e0, e1, id, s1, records)
                        && crate::session::is_session_context(s0, ctx, id, sc)
                        && #[trigger] crate::session::session_handles(s0, s1, c.action, id, ctx, sc, now, time, e0.records, records, p),
            },
        },
        InternEngineCommand::TeamLeftGracePeriod { session_id, team_id } => match e0.sessions.spec_get(session_id as int) {
            None => e1 == e0 && answers(p, ResponseAction::Success),
            Some(s0) => if team_id >= s0.teams@.len() {
                e1 == e0 && answers(p, ResponseAction::Success)
            } else {
                exists|s1: Session, ctx: EngineContext, now: crate::model::Moment|
                e0.lends(ctx) && session_replaced(e0, e1, session_id, s1, e0.records)
                    && #[trigger] crate::session::handles_team_left_grace_period(s0, s1, team_id, session_id, ctx, now, p)
            },
        },
        InternEngineCommand::MadeTeamProfile { session_id, team_id, profile } => match e0.sessions.spec_get(session_id as int) {
            None => e1.sessions@ == e0.sessions@ && e1 == (Engine { sessions: e1.sessions, ..changed })
                && not_found(p, "session with id "@ + decimal(session_id)),
            Some(s0) => exists|s1: Session, records: EngineRecords|
                session_replaced(e0, e1, session_id, s1, records)
                    && #[trigger] crate::session::handles_set_team_picture(s0, s1, team_id, profile, e0.records, records, p),
        },
        InternEngineCommand::MadePlayerProfile { player_id, profile } => handles_set_player_picture(changed, e1, player_id, profile, p),
        InternEngineCommand::UploadedImages(ids) => e1 == e0 && answers(p, ResponseAction::UploadedPictures(ids)),
        InternEngineCommand::AutoSave => autosaves(e0, e1, p),
    }
}


/// No two sessions of `sessions` (also those being deleted) have the same name.
pub open spec fn session_names_distinct(sessions: DBMirror<Session>) -> bool {
    forall|i: int, j: int|
        0 <= i < sessions@.len() && 0 <= j < sessions@.len() && i != j && sessions@[i] is Some
            && sessions@[j] is Some ==> (#[trigger] slot_value(sessions@[i])).name@ != (#[trigger] slot_value(
            sessions@[j],
        )).name@
}

/// No two players of `players` (also those being deleted) have the same passphrase.
pub open spec fn passphrases_distinct(players: DBMirror<PlayerEntry>) -> bool {
    forall|i: int, j: int|
        0 <= i < players@.len() && 0 <= j < players@.len() && i != j && players@[i] is Some
            && players@[j] is Some ==> (#[trigger] slot_value(players@[i])).passphrase@ != (#[trigger] slot_value(
            players@[j],
        )).passphrase@
}

/// Law: adding a session keeps the names of the sessions distinct.
pub proof fn law_session_names_stay_distinct(e0: Engine, e1: Engine, name: String, mode: Mode, p: InternEngineResponsePackage)
    requires
        session_names_distinct(e0.sessions),
        handles_add_session(e0, e1, name, mode, p),
    ensures
        session_names_distinct(e1.sessions),
{
    if !session_named(e0.sessions, name@) && e0.sessions@.len() < usize::MAX {
        let (id, s) = choose|id: int, s: Session|
            #[trigger] added(e0.sessions@, e1.sessions@, id, s) && s.name == name && s.mode == mode
                && s.teams@.len() == 0 && s.game is None && s.config.overrides_nothing();
        assert forall|i: int, j: int|
            0 <= i < e1.sessions@.len() && 0 <= j < e1.sessions@.len() && i != j && e1.sessions@[i] is Some
                && e1.sessions@[j] is Some implies (#[trigger] slot_value(e1.sessions@[i])).name@ != (#[trigger] slot_value(
                e1.sessions@[j],
            )).name@ by {
            if i != id && j != id {
                assert(e1.sessions@[i] == e0.sessions@[i]);
                assert(e1.sessions@[j] == e0.sessions@[j]);
            } else if i == id {
                assert(e1.sessions@[j] == e0.sessions@[j]);
                assert(slot_value(e0.sessions@[j]).name@ != name@);
            } else {
                assert(e1.sessions@[i] == e0.sessions@[i]);
                assert(slot_value(e0.sessions@[i]).name@ != name@);
            }
        }
        assert(session_names_distinct(e1.sessions));
    } else {
        assert(e1.sessions == e0.sessions);
    }
}

/// Law: adding a player keeps the passphrases of the players distinct.
pub proof fn law_passphrases_stay_distinct(
    e0: Engine,
    e1: Engine,
    name: String,
    discord_id: Option<u64>,
    passphrase: String,
    session: Option<u64>,
    p: InternEngineResponsePackage,
)
    requires
        passphrases_distinct(e0.players),
        handles_add_player(e0, e1, name, discord_id, passphrase, session, p),
    ensures
        passphrases_distinct(e1.players),
{
    if !passphrase_taken(e0.players, passphrase@) && e0.players@.len() < usize::MAX {
        let id = choose|id: int|
            #[trigger] added(
                e0.players@,
                e1.players@,
                id,
                PlayerEntry { picture: None, name, passphrase, discord_id, session },
            );
        assert forall|i: int, j: int|
            0 <= i < e1.players@.len() && 0 <= j < e1.players@.len() && i != j && e1.players@[i] is Some
                && e1.players@[j] is Some implies (#[trigger] slot_value(e1.players@[i])).passphrase@ != (#[trigger] slot_value(
                e1.players@[j],
            )).passphrase@ by {
            if i != id && j != id {
                assert(e1.players@[i] == e0.players@[i]);
                assert(e1.players@[j] == e0.players@[j]);
            } else if i == id {
                assert(e1.players@[j] == e0.players@[j]);
                assert(slot_value(e0.players@[j]).passphrase@ != passphrase@);
            } else {
                assert(e1.players@[i] == e0.players@[i]);
                assert(slot_value(e0.players@[i]).passphrase@ != passphrase@);
            }
        }
    }
}

/// Law: a player added with a passphrase that no player had is what asking for that passphrase
/// answers afterwards.
pub proof fn law_added_player_found_by_passphrase(
    e0: Engine,
    e1: Engine,
    name: String,
    discord_id: Option<u64>,
    passphrase: String,
    session: Option<u64>,
    p: InternEngineResponsePackage,
    p2: InternEngineResponsePackage,
)
    requires
        !passphrase_taken(e0.players, passphrase@),
        e0.players@.len() < usize::MAX,
        handles_add_player(e0, e1, name, discord_id, passphrase, session, p),
        handles_get_player_by_passphrase(e1, passphrase, p2),
    ensures
        p2.runtime_requests is None,
        ({
            &&& p2.response matches InternEngineResponse::DirectResponse(r)
            &&& r.response_action matches ResponseAction::Player(pl)
            &&& pl.name@ == name@
            &&& pl.session == session
            &&& pl.picture_id is None
        }),
{
    let e = PlayerEntry { picture: None, name, passphrase, discord_id, session };
    let id = choose|id: int| #[trigger] added(e0.players@, e1.players@, id, e);
    assert(e1.players@[id] == Some((e, crate::mirror::DBStatus::Edited)));
    assert forall|j: int| 0 <= j < id && e1.players@[j] is Some implies (#[trigger] slot_value(e1.players@[j])).passphrase@ != passphrase@ by {
        assert(e1.players@[j] == e0.players@[j]);
    }
    assert(first_player_with(e1.players, passphrase@, id));
}

/// Law: a session that was added is listed, with its name and mode, when the global state is
/// asked for afterwards.
pub proof fn law_added_session_listed(
    e0: Engine,
    e1: Engine,
    name: String,
    mode: Mode,
    p: InternEngineResponsePackage,
    p2: InternEngineResponsePackage,
)
    requires
        !session_named(e0.sessions, name@),
        e0.sessions@.len() < usize::MAX,
        handles_add_session(e0, e1, name, mode, p),
        handles_get_global_state(e1, p2),
    ensures
        answers(p, ResponseAction::Success),
        p2.response matches InternEngineResponse::DirectResponse(r)
            && r.response_action matches ResponseAction::SendGlobalState { sessions, players }
            && exists|k: int| 0 <= k < sessions@.len() && (#[trigger] sessions@[k]).name@ == name@ && sessions@[k].mode == mode,
{
    let (id, s) = choose|id: int, s: Session|
        #[trigger] added(e0.sessions@, e1.sessions@, id, s) && s.name == name && s.mode == mode
            && s.teams@.len() == 0 && s.game is None && s.config.overrides_nothing();
    assert(e1.sessions@[id] == Some((s, crate::mirror::DBStatus::Edited)));
    if let InternEngineResponse::DirectResponse(r) = p2.response {
        if let ResponseAction::SendGlobalState { sessions, players } = r.response_action {
            let ids = sessions@.map_values(|g: crate::model::GameSession| g.id);
            assert(crate::mirror::slot_live(e1.sessions@[id]));
            let k = choose|k: int| 0 <= k < ids.len() && ids[k] == id;
            assert(sessions@[k].id == id);
            assert(e1.sessions.spec_get(id) == Some(s));
            assert(sessions@[k].name@ == name@);
        }
    }
}

/// Law: a zone that was added is listed, with its number and without travel times, when the
/// zones are asked for afterwards.
pub proof fn law_added_zone_listed(
    e0: Engine,
    e1: Engine,
    zone: u64,
    num_conn_zones: u64,
    num_connections: u64,
    train_through: bool,
    mongus: bool,
    s_bahn_zone: bool,
    p: InternEngineResponsePackage,
    p2: InternEngineResponsePackage,
)
    requires
        e0.zones@.len() < usize::MAX,
        handles_add_zone(e0, e1, zone, num_conn_zones, num_connections, train_through, mongus, s_bahn_zone, p),
        handles_get_all_zones(e1, p2),
    ensures
        answers(p, ResponseAction::Success),
        p2.response matches InternEngineResponse::DirectResponse(r)
            && r.response_action matches ResponseAction::SendZones(zs)
            && exists|k: int|
            0 <= k < zs@.len() && (#[trigger] zs@[k]).zone == zone && zs@[k].num_conn_zones == num_conn_zones
                && zs@[k].num_connections == num_connections && zs@[k].minutes_to@ == Map::<u64, u64>::empty(),
{
    let (id, z) = choose|id: int, z: ZoneEntry|
        #[trigger] added(e0.zones@, e1.zones@, id, z) && z.zone == zone && z.num_conn_zones == num_conn_zones
            && z.num_connections == num_connections && z.train_through == train_through && z.mongus == mongus
            && z.s_bahn_zone == s_bahn_zone && z.minutes_to@ == Map::<u64, u64>::empty();
    assert(e1.zones@[id] == Some((z, crate::mirror::DBStatus::Edited)));
    if let InternEngineResponse::DirectResponse(r) = p2.response {
        if let ResponseAction::SendZones(zs) = r.response_action {
            let ids = zs@.map_values(|g: Zone| g.id);
            assert(crate::mirror::slot_live(e1.zones@[id]));
            let k = choose|k: int| 0 <= k < ids.len() && ids[k] == id;
            assert(zs@[k].id == id);
            assert(e1.zones.spec_get(id) == Some(z));
            assert(z.shows_as(id as u64, zs@[k]));
        }
    }
}

/// Law: a challenge set that was added is listed, with its name, when the challenge sets are
/// asked for afterwards.
pub proof fn law_added_challenge_set_listed(
    e0: Engine,
    e1: Engine,
    name: String,
    p: InternEngineResponsePackage,
    p2: InternEngineResponsePackage,
)
    requires
        !set_named(e0.challenge_sets, name@),
        e0.challenge_sets@.len() < usize::MAX,
        handles_add_challenge_set(e0, e1, name, p),
        handles_get_challenge_sets(e1, p2),
    ensures
        answers(p, ResponseAction::Success),
        p2.response matches InternEngineResponse::DirectResponse(r)
            && r.response_action matches ResponseAction::SendChallengeSets(sets)
            && exists|k: int| 0 <= k < sets@.len() && (#[trigger] sets@[k]).name@ == name@,
{
    let id = choose|id: int| #[trigger] added(e0.challenge_sets@, e1.challenge_sets@, id, ChallengeSetEntry { name });
    assert(e1.challenge_sets@[id] == Some((ChallengeSetEntry { name }, crate::mirror::DBStatus::Edited)));
    if let InternEngineResponse::DirectResponse(r) = p2.response {
        if let ResponseAction::SendChallengeSets(sets) = r.response_action {
            let ids = sets@.map_values(|c: crate::model::ChallengeSet| c.id);
            assert(crate::mirror::slot_live(e1.challenge_sets@[id]));
            let k = choose|k: int| 0 <= k < ids.len() && ids[k] == id;
            assert(sets@[k].id == id);
            assert(e1.challenge_sets.spec_get(id) == Some(ChallengeSetEntry { name }));
        }
    }
}

impl Engine {
    /// The read access to its collections that the engine lends to a session.
    pub open spec fn lends(self, c: EngineContext) -> bool {
        &&& *c.player_db == self.players
        &&& *c.challenge_db == self.challenges
        &&& *c.challenge_set_db == self.challenge_sets
        &&& *c.zone_db == self.zones
    }

    /// An engine holding the collections as loaded from the database, with nothing changed.
    pub fn from_loaded(
        sessions: Vec<(u64, Session)>,
        challenges: Vec<(u64, ChallengeEntry)>,
        challenge_sets: Vec<(u64, ChallengeSetEntry)>,
        zones: Vec<(u64, ZoneEntry)>,
        players: Vec<(u64, PlayerEntry)>,
        past_games: Vec<(u64, crate::session::PastGame)>,
        pictures: Vec<(u64, PictureEntry)>,
    ) -> (e: Engine)
        requires
            forall|i: int| 0 <= i < sessions@.len() ==> (sessions@[i].0 as int) < usize::MAX,
            forall|i: int| 0 <= i < challenges@.len() ==> (challenges@[i].0 as int) < usize::MAX,
            forall|i: int|
                0 <= i < challenge_sets@.len() ==> (challenge_sets@[i].0 as int) < usize::MAX,
            forall|i: int| 0 <= i < zones@.len() ==> (zones@[i].0 as int) < usize::MAX,
            forall|i: int| 0 <= i < players@.len() ==> (players@[i].0 as int) < usize::MAX,
            forall|i: int| 0 <= i < past_games@.len() ==> (past_games@[i].0 as int) < usize::MAX,
            forall|i: int| 0 <= i < pictures@.len() ==> (pictures@[i].0 as int) < usize::MAX,
        ensures
            !e.changes_since_save,
            crate::mirror::mirrors_loaded(e.sessions@, sessions@),
            crate::mirror::mirrors_loaded(e.challenges@, challenges@),
            crate::mirror::mirrors_loaded(e.challenge_sets@, challenge_sets@),
            crate::mirror::mirrors_loaded(e.zones@, zones@),
            crate::mirror::mirrors_loaded(e.players@, players@),
            crate::mirror::mirrors_loaded(e.records.past_game_db@, past_games@),
            crate::mirror::mirrors_loaded(e.records.picture_db@, pictures@),
            e.records.timer_tracker.current_id == 0,
    {
        Engine {
            changes_since_save: false,
            sessions: DBMirror::from_loaded(sessions),
            challenges: DBMirror::from_loaded(challenges),
            challenge_sets: DBMirror::from_loaded(challenge_sets),
            zones: DBMirror::from_loaded(zones),
            players: DBMirror::from_loaded(players),
            records: EngineRecords {
                past_game_db: DBMirror::from_loaded(past_games),
                picture_db: DBMirror::from_loaded(pictures),
                timer_tracker: TimerTracker::new(),
            },
        }
    }

    /// Starts the autosaves: asks for a timer that sends `AutoSave` after two seconds. Meant to
    /// be called once.
    pub fn setup(&mut self) -> (p: InternEngineResponsePackage)
        ensures
            final(self).records.timer_tracker.current_id == crate::timer::next_timer_id(
                old(self).records.timer_tracker.current_id,
            ),
            *final(self) == (Engine {
                records: EngineRecords { timer_tracker: final(self).records.timer_tracker, ..old(self).records },
                ..*old(self)
            }),
            p.response == InternEngineResponse::DirectResponse(
                EngineResponse { response_action: ResponseAction::Success, broadcast_action: None },
            ),
            p.runtime_requests matches Some(v) && v@ == seq![
                RuntimeRequest::CreateTimer {
                    duration: 2000,
                    payload: InternEngineCommand::AutoSave,
                    id: final(self).records.timer_tracker.current_id,
                },
            ],
    {
        self.records.timer_tracker.current_id = self.records.timer_tracker.current_id.wrapping_add(1);
        let mut v: Vec<RuntimeRequest> = Vec::new();
        v.push(
            RuntimeRequest::CreateTimer {
                duration: 2000,
                payload: InternEngineCommand::AutoSave,
                id: self.records.timer_tracker.current_id,
            },
        );
        InternEngineResponsePackage {
            response: InternEngineResponse::DirectResponse(
                EngineResponse::from_action(ResponseAction::Success),
            ),
            runtime_requests: Some(v),
        }
    }

    /// Answers every zone that can be read (see `lists_zones`).
    fn get_all_zones(&self) -> (p: InternEngineResponsePackage)
        ensures
            handles_get_all_zones(
                *self,
                p,
            ),
    {
        let all = self.zones.get_all();
        let mut zs: Vec<Zone> = Vec::new();
        let mut k: usize = 0;
        while k < all.len()
            invariant
                k <= all@.len(),
                zs@.len() == k,
                forall|l: int| 0 <= l < k ==> zs@[l].id == all@[l].id,
                forall|l: int|
                    0 <= l < k ==> self.zones.spec_get(zs@[l].id as int).unwrap().shows_as(
                        zs@[l].id,
                        #[trigger] zs@[l],
                    ),
                forall|q: int| 0 <= q < all@.len() ==> Some(*all@[q].contents) == self.zones.spec_get(all@[q].id as int),
            decreases all@.len() - k,
        {
            zs.push(all[k].contents.to_sendable(all[k].id));
            k = k + 1;
        }
        assert(zs@.map_values(|z: Zone| z.id) =~= all@.map_values(|e: DBEntry<'_, ZoneEntry>| e.id));
        InternEngineResponsePackage::action(ResponseAction::SendZones(zs))
    }

    /// Answers the stored challenges that can be shown (see `lists_raw`); those whose sets or
    /// zones cannot be read are left out.
    fn get_raw_challenges(&self) -> (p: InternEngineResponsePackage)
        ensures
            handles_get_raw_challenges(
                *self,
                p,
            ),
    {
        let all = self.challenges.get_all();
        let sets = self.challenge_sets.get_all();
        let zones = self.zones.get_all();
        let mut rs: Vec<crate::model::RawChallenge> = Vec::new();
        let mut k: usize = 0;
        while k < all.len()
            invariant
                k <= all@.len(),
                lists_live(self.challenges@, all@.map_values(|e: DBEntry<'_, ChallengeEntry>| e.id)),
                forall|q: int| 0 <= q < all@.len() ==> Some(*all@[q].contents) == self.challenges.spec_get(all@[q].id as int),
                lists_live(self.challenge_sets@, sets@.map_values(|e: DBEntry<'_, ChallengeSetEntry>| e.id)),
                forall|q: int| 0 <= q < sets@.len() ==> Some(*sets@[q].contents) == self.challenge_sets.spec_get(sets@[q].id as int),
                lists_live(self.zones@, zones@.map_values(|e: DBEntry<'_, ZoneEntry>| e.id)),
                forall|q: int| 0 <= q < zones@.len() ==> Some(*zones@[q].contents) == self.zones.spec_get(zones@[q].id as int),
                forall|j: int|
                    0 <= j < rs@.len() ==> (#[trigger] rs@[j]).id is Some && self.challenges.spec_get(rs@[j].id->0 as int) is Some
                        && resolvable(self.challenges.spec_get(rs@[j].id->0 as int)->0, self.challenge_sets, self.zones)
                        && shows_raw(self.challenges.spec_get(rs@[j].id->0 as int)->0, rs@[j].id->0, self.challenge_sets, self.zones, rs@[j]),
                forall|j: int, l: int| 0 <= j < l < rs@.len() ==> rs@[j].id->0 < rs@[l].id->0,
                forall|j: int, q: int| 0 <= j < rs@.len() && k <= q < all@.len() ==> (#[trigger] rs@[j]).id->0 < (#[trigger] all@[q]).id,
                forall|q: int|
                    0 <= q < k && resolvable(*all@[q].contents, self.challenge_sets, self.zones) ==> exists|j: int|
                        0 <= j < rs@.len() && rs@[j].id == Some(all@[q].id),
            decreases all@.len() - k,
        {
            let id = all[k].id;
            let c = all[k].contents;
            let ghost ids = all@.map_values(|e: DBEntry<'_, ChallengeEntry>| e.id);
            proof {
                assert(ids[k as int] == id);
                assert forall|q: int| k < q < all@.len() implies id < (#[trigger] all@[q]).id by {
                    assert(ids[q] == all@[q].id);
                }
                assert forall|x: u64| crate::challenge::id_listed(sets@, x) <==> self.challenge_sets.spec_get(x as int) is Some by {
                    lemma_listed_iff_live(self.challenge_sets@, sets@, x);
                }
                assert forall|x: u64| crate::challenge::id_listed(zones@, x) <==> self.zones.spec_get(x as int) is Some by {
                    lemma_listed_iff_live(self.zones@, zones@, x);
                }
            }
            match c.to_sendable(id, sets.as_slice(), zones.as_slice()) {
                Ok(rc) => {
                    proof {
                        assert forall|j: int| 0 <= j < c.sets@.len() implies (#[trigger] rc.sets@[j]).name@ == self.challenge_sets.spec_get(
                            c.sets@[j] as int,
                        ).unwrap().name@ by {
                            let q = choose|q: int| crate::challenge::first_with_id(sets@, c.sets@[j], q) && rc.sets@[j].name@ == sets@[q].contents.name@;
                        }
                        assert forall|j: int| 0 <= j < c.zone@.len() implies self.zones.spec_get(c.zone@[j] as int).unwrap().shows_as(c.zone@[j], #[trigger] rc.zone@[j]) by {
                            let q = choose|q: int| crate::challenge::first_with_id(zones@, c.zone@[j], q) && zones@[q].contents.shows_as(c.zone@[j], rc.zone@[j]);
                        }
                    }
                    let ghost before = rs@;
                    rs.push(rc);
                    proof {
                        assert forall|q: int|
                            0 <= q < k + 1 && resolvable(*all@[q].contents, self.challenge_sets, self.zones) implies exists|j: int|
                                0 <= j < rs@.len() && rs@[j].id == Some(all@[q].id) by {
                            if q < k {
                                let j = choose|j: int| 0 <= j < before.len() && before[j].id == Some(all@[q].id);
                                assert(rs@[j] == before[j]);
                            } else {
                                assert(rs@[before.len() as int].id == Some(all@[q].id));
                            }
                        }
                    }
                },
                Err(_) => {
                    assert(!resolvable(*c, self.challenge_sets, self.zones));
                },
            }
            k = k + 1;
        }
        proof {
            assert forall|i: int|
                0 <= i < self.challenges@.len() && self.challenges.spec_get(i) is Some && resolvable(
                    self.challenges.spec_get(i)->0,
                    self.challenge_sets,
                    self.zones,
                ) implies exists|j: int| 0 <= j < rs@.len() && rs@[j].id == Some(i as u64) by {
                let ids = all@.map_values(|e: DBEntry<'_, ChallengeEntry>| e.id);
                let q = choose|q: int| 0 <= q < ids.len() && ids[q] == i;
                assert(all@[q].id == i);
            }
        }
        InternEngineResponsePackage::action(ResponseAction::SendRawChallenges(rs))
    }

    /// Adds a zone without travel times.
    fn add_zone(
        &mut self,
        zone: u64,
        num_conn_zones: u64,
        num_connections: u64,
        train_through: bool,
        mongus: bool,
        s_bahn_zone: bool,
    ) -> (p: InternEngineResponsePackage)
        ensures
            handles_add_zone(
                *old(self),
                *final(self),
                zone,
                num_conn_zones,
                num_connections,
                train_through,
                mongus,
                s_bahn_zone,
                p,
            ),
    {
        if self.zones.slots() == usize::MAX {
            return InternEngineResponsePackage::action(ResponseAction::Error(Error::InternalError));
        }
        let z = ZoneEntry {
            zone,
            num_conn_zones,
            num_connections,
            train_through,
            mongus,
            s_bahn_zone,
            minutes_to: HashMap::new(),
        };
        let ghost zv = z;
        let id = self.zones.add(z);
        assert(added(old(self).zones@, self.zones@, id as int, zv));
        InternEngineResponsePackage::action(ResponseAction::Success)
    }

    /// Sets the travel time from zone `from_zone` to zone `to_zone`; both must be readable.
    fn add_minutes_to(&mut self, from_zone: u64, to_zone: u64, minutes: u64) -> (p:
        InternEngineResponsePackage)
        ensures
            handles_add_minutes_to(
                *old(self),
                *final(self),
                from_zone,
                to_zone,
                minutes,
                p,
            ),
    {
        if self.zones.get(to_zone).is_none() {
            return not_found_numbered("to zone with id ", to_zone);
        }
        match self.zones.get_mut(from_zone) {
            None => not_found_numbered("from zone with id ", from_zone),
            Some(entry) => {
                entry.minutes_to.insert(to_zone, minutes);
                InternEngineResponsePackage::action(ResponseAction::Success)
            },
        }
    }

    /// Replaces the stored challenge with the id that `challenge` carries, last edited `now`.
    fn set_raw_challenge(&mut self, challenge: crate::model::InputChallenge, now: crate::model::Moment) -> (p:
        InternEngineResponsePackage)
        ensures
            handles_set_raw_challenge(
                *old(self),
                *final(self),
                challenge,
                now,
                p,
            ),
    {
        match challenge.id {
            None => {
                let text = String::from_str("the supplied challenge doesn't have an id. this can happen because the RawChallenge::new() method doesn't assign an id. challenges sent from truinlag have an id.");
                InternEngineResponsePackage::action(ResponseAction::Error(Error::BadData(text)))
            },
            Some(id) => match self.challenges.get_mut(id) {
                None => not_found_numbered("challenge with id ", id),
                Some(c) => {
                    *c = ChallengeEntry::from_input(challenge, now);
                    InternEngineResponsePackage::action(ResponseAction::Success)
                },
            },
        }
    }

    /// Stores a new challenge, last edited `now`.
    fn add_raw_challenge(&mut self, challenge: crate::model::InputChallenge, now: crate::model::Moment) -> (p:
        InternEngineResponsePackage)
        ensures
            handles_add_raw_challenge(
                *old(self),
                *final(self),
                challenge,
                now,
                p,
            ),
    {
        if self.challenges.slots() == usize::MAX {
            return InternEngineResponsePackage::action(ResponseAction::Error(Error::InternalError));
        }
        let ghost c = crate::challenge::stored_from(challenge, now);
        let id = self.challenges.add(ChallengeEntry::from_input(challenge, now));
        assert(added(old(self).challenges@, self.challenges@, id as int, c));
        InternEngineResponsePackage::action(ResponseAction::Success)
    }

    /// Deletes every stored challenge.
    fn delete_all_challenges(&mut self) -> (p: InternEngineResponsePackage)
        ensures
            handles_delete_all_challenges(
                *old(self),
                *final(self),
                p,
            ),
    {
        self.challenges.delete_all();
        InternEngineResponsePackage::action(ResponseAction::Success)
    }

    /// Answers the readable player of lowest id with passphrase `passphrase`.
    fn get_player_by_passphrase(&self, passphrase: String) -> (p: InternEngineResponsePackage)
        ensures
            handles_get_player_by_passphrase(
                *self,
                passphrase,
                p,
            ),
    {
        let pass = &passphrase;
        let matching = |e: &PlayerEntry| -> (b: bool)
            ensures
                b <==> e.passphrase@ == pass@,
            { e.passphrase == *pass };
        match self.players.find(matching) {
            None => {
                let text = String::from_str("player with passphrase ").concat(passphrase.as_str());
                InternEngineResponsePackage::action(ResponseAction::Error(Error::NotFound(text)))
            },
            Some(e) => InternEngineResponsePackage::action(ResponseAction::Player(e.contents.to_sendable(e.id))),
        }
    }

    /// Adds a session without teams, unless a session (also one being deleted) has the name
    /// (`AlreadyExists`).
    fn add_session(&mut self, name: String, mode: Mode) -> (p: InternEngineResponsePackage)
        ensures
            handles_add_session(
                *old(self),
                *final(self),
                name,
                mode,
                p,
            ),
    {
        let n = &name;
        let same_name = |s: &Session| -> (b: bool)
            ensures
                b <==> s.name@ == n@,
            { s.name == *n };
        if self.sessions.any(same_name) {
            return InternEngineResponsePackage::action(ResponseAction::Error(Error::AlreadyExists));
        }
        if self.sessions.slots() == usize::MAX {
            return InternEngineResponsePackage::action(ResponseAction::Error(Error::InternalError));
        }
        let s = Session::new(name, mode);
        let ghost sv = s;
        let id = self.sessions.add(s);
        assert(added(old(self).sessions@, self.sessions@, id as int, sv));
        InternEngineResponsePackage::action(ResponseAction::Success)
    }

    /// Adds a player, unless a player (also one being deleted) has the passphrase
    /// (`AlreadyExists`).
    fn add_player(
        &mut self,
        name: String,
        discord_id: Option<u64>,
        passphrase: String,
        session: Option<u64>,
    ) -> (p: InternEngineResponsePackage)
        ensures
            handles_add_player(
                *old(self),
                *final(self),
                name,
                discord_id,
                passphrase,
                session,
                p,
            ),
    {
        let pass = &passphrase;
        let same_pass = |e: &PlayerEntry| -> (b: bool)
            ensures
                b <==> e.passphrase@ == pass@,
            { e.passphrase == *pass };
        if self.players.any(same_pass) {
            return InternEngineResponsePackage::action(ResponseAction::Error(Error::AlreadyExists));
        }
        if self.players.slots() == usize::MAX {
            return InternEngineResponsePackage::action(ResponseAction::Error(Error::InternalError));
        }
        let e = PlayerEntry { picture: None, name, passphrase, discord_id, session };
        let ghost ev = e;
        let id = self.players.add(e);
        assert(added(old(self).players@, self.players@, id as int, ev));
        InternEngineResponsePackage::action(ResponseAction::Success)
    }

    /// Moves player `player` to session `session` (out of every session for `None`): the player
    /// leaves the teams of the session it was in, and the change is broadcast. Nothing happens
    /// where the player is in that session already; `NotFound` where there is no such player or
    /// no such session (the player has left its teams then).
    fn set_player_session(&mut self, player: u64, session: Option<u64>) -> (p: InternEngineResponsePackage)
        ensures
            handles_set_player_session(
                *old(self),
                *final(self),
                player,
                session,
                p,
            ),
    {
        let pe = match self.players.get_mut(player) {
            None => {
                return not_found_numbered("player with id ", player);
            },
            Some(pe) => pe,
        };
        let old_session = pe.session;
        if old_session == session {
            return InternEngineResponsePackage::action(ResponseAction::Success);
        }
        if let Some(t) = old_session {
            drop_player(&mut self.sessions, t, player);
        }
        match session {
            None => {
                pe.session = None;
                let shown = pe.to_sendable(player);
                InternEngineResponsePackage {
                    response: InternEngineResponse::DirectResponse(
                        EngineResponse {
                            response_action: ResponseAction::Success,
                            broadcast_action: Some(
                                BroadcastAction::PlayerChangedSession {
                                    player: shown,
                                    from_session: old_session,
                                    to_session: None,
                                },
                            ),
                        },
                    ),
                    runtime_requests: None,
                }
            },
            Some(sid) => {
                if self.sessions.get(sid).is_some() {
                    pe.session = Some(sid);
                    let shown = pe.to_sendable(player);
                    InternEngineResponsePackage {
                        response: InternEngineResponse::DirectResponse(
                            EngineResponse {
                                response_action: ResponseAction::Success,
                                broadcast_action: Some(
                                    BroadcastAction::PlayerChangedSession {
                                        player: shown,
                                        from_session: old_session,
                                        to_session: Some(sid),
                                    },
                                ),
                            },
                        ),
                        runtime_requests: None,
                    }
                } else {
                    not_found_numbered("session with id ", sid)
                }
            },
        }
    }

    /// Renames player `player`.
    fn set_player_name(&mut self, player: u64, name: String) -> (p: InternEngineResponsePackage)
        ensures
            handles_set_player_name(
                *old(self),
                *final(self),
                player,
                name,
                p,
            ),
    {
        match self.players.get_mut(player) {
            None => not_found_numbered("player with id ", player),
            Some(pe) => {
                pe.name = name;
                InternEngineResponsePackage::action(ResponseAction::Success)
            },
        }
    }

    /// Changes the passphrase of player `player` (even to one another player has).
    fn set_player_passphrase(&mut self, player: u64, passphrase: String) -> (p: InternEngineResponsePackage)
        ensures
            handles_set_player_passphrase(
                *old(self),
                *final(self),
                player,
                passphrase,
                p,
            ),
    {
        match self.players.get_mut(player) {
            None => not_found_numbered("player with id ", player),
            Some(pe) => {
                pe.passphrase = passphrase;
                InternEngineResponsePackage::action(ResponseAction::Success)
            },
        }
    }

    /// Broadcasts `payload`.
    fn ping(&self, payload: Option<String>) -> (p: InternEngineResponsePackage)
        ensures
            handles_ping(
                *self,
                payload,
                p,
            ),
    {
        InternEngineResponsePackage {
            response: InternEngineResponse::DirectResponse(
                EngineResponse {
                    response_action: ResponseAction::Success,
                    broadcast_action: Some(BroadcastAction::Pinged(payload)),
                },
            ),
            runtime_requests: None,
        }
    }

    /// Answers the sessions and players that can be read, as clients see them, by increasing id.
    fn get_global_state(&self) -> (p: InternEngineResponsePackage)
        ensures
            handles_get_global_state(
                *self,
                p,
            ),
    {
        let all = self.sessions.get_all();
        let mut sessions: Vec<crate::model::GameSession> = Vec::new();
        let mut k: usize = 0;
        while k < all.len()
            invariant
                k <= all@.len(),
                sessions@.len() == k,
                forall|l: int| 0 <= l < k ==> sessions@[l].id == all@[l].id,
                forall|q: int| 0 <= q < all@.len() ==> Some(*all@[q].contents) == self.sessions.spec_get(all@[q].id as int),
                forall|l: int|
                    0 <= l < k ==> {
                        let s = self.sessions.spec_get(sessions@[l].id as int)->0;
                        (#[trigger] sessions@[l]).name@ == s.name@ && sessions@[l].mode == s.mode
                    },
            decreases all@.len() - k,
        {
            sessions.push(all[k].contents.to_sendable(all[k].id));
            k = k + 1;
        }
        assert(sessions@.map_values(|g: crate::model::GameSession| g.id) =~= all@.map_values(|e: DBEntry<'_, Session>| e.id));
        let all = self.players.get_all();
        let mut players: Vec<Player> = Vec::new();
        let mut k: usize = 0;
        while k < all.len()
            invariant
                k <= all@.len(),
                players@.len() == k,
                forall|l: int| 0 <= l < k ==> players@[l].id == all@[l].id,
                forall|q: int| 0 <= q < all@.len() ==> Some(*all@[q].contents) == self.players.spec_get(all@[q].id as int),
                forall|l: int|
                    0 <= l < k ==> self.players.spec_get(players@[l].id as int)->0.shows_as(
                        players@[l].id,
                        #[trigger] players@[l],
                    ),
            decreases all@.len() - k,
        {
            players.push(all[k].contents.to_sendable(all[k].id));
            k = k + 1;
        }
        assert(players@.map_values(|q: Player| q.id) =~= all@.map_values(|e: DBEntry<'_, PlayerEntry>| e.id));
        InternEngineResponsePackage::action(ResponseAction::SendGlobalState { sessions, players })
    }

    /// Adds a challenge set, unless a set (also one being deleted) has the name
    /// (`AlreadyExists`).
    fn add_challenge_set(&mut self, name: String) -> (p: InternEngineResponsePackage)
        ensures
            handles_add_challenge_set(
                *old(self),
                *final(self),
                name,
                p,
            ),
    {
        let n = &name;
        let same_name = |s: &ChallengeSetEntry| -> (b: bool)
            ensures
                b <==> s.name@ == n@,
            { s.name == *n };
        if self.challenge_sets.any(same_name) {
            return InternEngineResponsePackage::action(ResponseAction::Error(Error::AlreadyExists));
        }
        if self.challenge_sets.slots() == usize::MAX {
            return InternEngineResponsePackage::action(ResponseAction::Error(Error::InternalError));
        }
        let e = ChallengeSetEntry { name };
        let ghost ev = e;
        let id = self.challenge_sets.add(e);
        assert(added(old(self).challenge_sets@, self.challenge_sets@, id as int, ev));
        InternEngineResponsePackage::action(ResponseAction::Success)
    }

    /// Answers the challenge sets that can be read, as clients see them, by increasing id.
    fn get_challenge_sets(&self) -> (p: InternEngineResponsePackage)
        ensures
            handles_get_challenge_sets(
                *self,
                p,
            ),
    {
        let all = self.challenge_sets.get_all();
        let mut sets: Vec<crate::model::ChallengeSet> = Vec::new();
        let mut k: usize = 0;
        while k < all.len()
            invariant
                k <= all@.len(),
                sets@.len() == k,
                forall|l: int| 0 <= l < k ==> sets@[l].id == all@[l].id,
                forall|q: int| 0 <= q < all@.len() ==> Some(*all@[q].contents) == self.challenge_sets.spec_get(all@[q].id as int),
                forall|l: int|
                    0 <= l < k ==> (#[trigger] sets@[l]).name@ == self.challenge_sets.spec_get(sets@[l].id as int)->0.name@,
            decreases all@.len() - k,
        {
            sets.push(all[k].contents.to_sendable(all[k].id));
            k = k + 1;
        }
        assert(sets@.map_values(|c: crate::model::ChallengeSet| c.id) =~= all@.map_values(|e: DBEntry<'_, ChallengeSetEntry>| e.id));
        InternEngineResponsePackage::action(ResponseAction::SendChallengeSets(sets))
    }

    /// Answers the stored pictures with the ids `ids` that can be read, in that order: for
    /// `thumbnails`, the thumbnails of profile pictures; otherwise the full profile pictures and
    /// the challenge pictures. Other ids are left out.
    fn get_pictures(&self, ids: Vec<u64>, thumbnails: bool) -> (p: InternEngineResponsePackage)
        ensures
            handles_get_pictures(
                *self,
                ids@,
                thumbnails,
                p,
            ),
    {
        let mut pics: Vec<crate::model::Picture> = Vec::new();
        let ghost mut picked: Seq<u64> = Seq::empty();
        let mut k: usize = 0;
        while k < ids.len()
            invariant
                k <= ids@.len(),
                picked == ids@.take(k as int).filter(|id: u64| shows_picture(self.records.picture_db, id, thumbnails)),
                pics@.len() == picked.len(),
                forall|l: int| 0 <= l < pics@.len() ==> picture_of(self.records.picture_db, picked[l], thumbnails, #[trigger] pics@[l]),
            decreases ids@.len() - k,
        {
            let id = ids[k];
            proof {
                assert(ids@.take(k + 1) =~= ids@.take(k as int).push(id));
                ids@.take(k as int).lemma_filter_push(id, |id: u64| shows_picture(self.records.picture_db, id, thumbnails));
            }
            match self.records.picture_db.get(id) {
                Some(entry) => match entry {
                    PictureEntry::Profile { thumb, full } => {
                        let data = if thumbnails {
                            thumb.duplicate()
                        } else {
                            full.duplicate()
                        };
                        pics.push(crate::model::Picture { data, is_thumbnail: thumbnails, id });
                        proof {
                            picked = picked.push(id);
                        }
                    },
                    PictureEntry::ChallengePicture(pic) => {
                        if !thumbnails {
                            pics.push(crate::model::Picture { data: pic.duplicate(), is_thumbnail: false, id });
                            proof {
                                picked = picked.push(id);
                            }
                        }
                    },
                },
                None => {},
            }
            k = k + 1;
        }
        assert(ids@.take(ids@.len() as int) =~= ids@);
        InternEngineResponsePackage::action(ResponseAction::Pictures(pics))
    }

    /// Asks for the conversion of `picture` into the profile picture of player `player_id`.
    fn upload_player_picture(&self, player_id: u64, picture: crate::model::RawPicture) -> (p: InternEngineResponsePackage)
        ensures
            handles_upload_player_picture(
                *self,
                player_id,
                picture,
                p,
            ),
    {
        if self.players.get(player_id).is_none() {
            return not_found_numbered("player with id ", player_id);
        }
        InternEngineResponsePackage::from_response(
            InternEngineResponse::DelayedLoopback(
                crate::runtime::OutsideWork::MakePlayerProfile { player_id, picture },
            ),
        )
    }

    /// Stores the converted profile picture of player `player_id` and makes it the player's
    /// picture (`PictureProblem` where the conversion failed).
    fn set_player_picture(&mut self, player_id: u64, profile: Option<PictureEntry>) -> (p: InternEngineResponsePackage)
        ensures
            handles_set_player_picture(
                *old(self),
                *final(self),
                player_id,
                profile,
                p,
            ),
    {
        if self.players.get(player_id).is_none() {
            return not_found_numbered("player with id ", player_id);
        }
        match profile {
            None => InternEngineResponsePackage::action(ResponseAction::Error(Error::PictureProblem)),
            Some(e) => {
                if self.records.picture_db.slots() == usize::MAX {
                    return InternEngineResponsePackage::action(ResponseAction::Error(Error::InternalError));
                }
                let ghost ev = e;
                let id = self.records.picture_db.add(e);
                assert(added(old(self).records.picture_db@, self.records.picture_db@, id as int, ev));
                match self.players.get_mut(player_id) {
                    Some(pe) => {
                        pe.picture = Some(id);
                    },
                    None => {},
                }
                InternEngineResponsePackage::action(ResponseAction::Success)
            },
        }
    }

    /// Handles a global command at the current local time (see `engine_handles`).
    fn handle_action(&mut self, action: EngineAction) -> (p: InternEngineResponsePackage)
        ensures
            exists|now: crate::model::Moment| #[trigger] engine_handles(*old(self), *final(self), action, now, p),
    {
        let ghost act = action;
        let now = now_moment();
        let p = match action {
            EngineAction::GetAllZones => self.get_all_zones(),
            EngineAction::AddZone { zone, num_conn_zones, num_connections, train_through, mongus, s_bahn_zone } => self.add_zone(
                zone,
                num_conn_zones,
                num_connections,
                train_through,
                mongus,
                s_bahn_zone,
            ),
            EngineAction::AddMinutesTo { from_zone, to_zone, minutes } => self.add_minutes_to(from_zone, to_zone, minutes),
            EngineAction::GetRawChallenges => self.get_raw_challenges(),
            EngineAction::SetRawChallenge(c) => self.set_raw_challenge(c, now),
            EngineAction::AddRawChallenge(c) => self.add_raw_challenge(c, now),
            EngineAction::DeleteAllChallenges => self.delete_all_challenges(),
            EngineAction::GetPlayerByPassphrase(pass) => self.get_player_by_passphrase(pass),
            EngineAction::AddSession { name, mode } => self.add_session(name, mode),
            EngineAction::AddPlayer { name, discord_id, passphrase, session } => self.add_player(
                name,
                discord_id,
                passphrase,
                session,
            ),
            EngineAction::SetPlayerSession { player, session } => self.set_player_session(player, session),
            EngineAction::SetPlayerName { player, name } => self.set_player_name(player, name),
            EngineAction::SetPlayerPassphrase { player, passphrase } => self.set_player_passphrase(player, passphrase),
            EngineAction::RemovePlayer { .. } => InternEngineResponsePackage::action(ResponseAction::Error(Error::NotImplemented)),
            EngineAction::Ping(payload) => self.ping(payload),
            EngineAction::GetState => self.get_global_state(),
            EngineAction::AddChallengeSet(name) => self.add_challenge_set(name),
            EngineAction::GetChallengeSets => self.get_challenge_sets(),
            EngineAction::GetThumbnails(ids) => self.get_pictures(ids, true),
            EngineAction::GetPictures(ids) => self.get_pictures(ids, false),
            EngineAction::UploadPlayerPicture { player_id, picture } => self.upload_player_picture(player_id, picture),
            _ => InternEngineResponsePackage::action(ResponseAction::Error(Error::NoSessionSupplied)),
        };
        assert(engine_handles(*old(self), *self, act, now, p));
        p
    }

    /// Takes what changed since the last save, or asks for the next autosave where nothing did.
    fn autosave(&mut self) -> (p: InternEngineResponsePackage)
        ensures
            autosaves(*old(self), *final(self), p),
    {
        let mut v: Vec<RuntimeRequest> = Vec::new();
        if !self.changes_since_save {
            v.push(RuntimeRequest::ScheduleAutoSave);
            return InternEngineResponsePackage {
                response: InternEngineResponse::DirectResponse(EngineResponse::from_action(ResponseAction::Success)),
                runtime_requests: Some(v),
            };
        }
        let players = self.players.extract_changes();
        self.players.clear_pending_deletions();
        let _ = self.players.extract_deletions();
        let sessions = self.sessions.extract_changes();
        self.sessions.clear_pending_deletions();
        let session_deletions = self.sessions.extract_deletions();
        let challenges = self.challenges.extract_changes();
        self.challenges.clear_pending_deletions();
        let challenge_deletions = self.challenges.extract_deletions();
        let challenge_sets = self.challenge_sets.extract_changes();
        self.challenge_sets.clear_pending_deletions();
        let challenge_set_deletions = self.challenge_sets.extract_deletions();
        let zones = self.zones.extract_changes();
        self.zones.clear_pending_deletions();
        let zone_deletions = self.zones.extract_deletions();
        let past_games = self.records.past_game_db.extract_changes();
        let pictures = self.records.picture_db.extract_changes();
        self.changes_since_save = false;
        v.push(
            RuntimeRequest::Save(
                SaveBatch {
                    players,
                    sessions,
                    session_deletions,
                    challenges,
                    challenge_deletions,
                    challenge_sets,
                    challenge_set_deletions,
                    zones,
                    zone_deletions,
                    past_games,
                    pictures,
                },
            ),
        );
        InternEngineResponsePackage {
            response: InternEngineResponse::DirectResponse(EngineResponse::from_action(ResponseAction::Success)),
            runtime_requests: Some(v),
        }
    }

    /// Handles one command (see `engine_vroom`).
    pub fn vroom<E: GameEnv>(&mut self, command: InternEngineCommand, env: &E) -> (p: InternEngineResponsePackage)
        ensures
            engine_vroom(*old(self), *final(self), command, p),
    {
        match command {
            InternEngineCommand::Command(c) => {
                self.changes_since_save = true;
                let c = *c;
                match c.session {
                    None => self.handle_action(c.action),
                    Some(id) => {
                        let ghost e0 = *self;
                        match self.sessions.get_mut(id) {
                            None => not_found_numbered("session with id ", id),
                            Some(session) => {
                                let ctx = EngineContext {
                                    player_db: &self.players,
                                    challenge_db: &self.challenges,
                                    challenge_set_db: &self.challenge_sets,
                                    zone_db: &self.zones,
                                };
                                session.vroom(c.action, id, ctx, &mut self.records, env)
                            },
                        }
                    },
                }
            },
            InternEngineCommand::TeamLeftGracePeriod { session_id, team_id } => {
                let present = match self.sessions.get(session_id) {
                    None => false,
                    Some(session) => team_id < session.teams.len(),
                };
                if !present {
                    return InternEngineResponsePackage::action(ResponseAction::Success);
                }
                self.changes_since_save = true;
                match self.sessions.get_mut(session_id) {
                    None => InternEngineResponsePackage::action(ResponseAction::Success),
                    Some(session) => {
                        let ctx = EngineContext {
                            player_db: &self.players,
                            challenge_db: &self.challenges,
                            challenge_set_db: &self.challenge_sets,
                            zone_db: &self.zones,
                        };
                        session.team_left_grace_period(team_id, session_id, ctx, now_moment())
                    },
                }
            },
            InternEngineCommand::MadeTeamProfile { session_id, team_id, profile } => {
                self.changes_since_save = true;
                match self.sessions.get_mut(session_id) {
                    None => not_found_numbered("session with id ", session_id),
                    Some(session) => session.set_team_picture(team_id, profile, &mut self.records),
                }
            },
            InternEngineCommand::MadePlayerProfile { player_id, profile } => {
                self.changes_since_save = true;
                self.set_player_picture(player_id, profile)
            },
            InternEngineCommand::UploadedImages(ids) => InternEngineResponsePackage::action(
                ResponseAction::UploadedPictures(ids),
            ),
            InternEngineCommand::AutoSave => self.autosave(),
        }
    }
}

} // verus!
