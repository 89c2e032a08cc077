//! What the engine lends to a session while it handles a command: read access to the stored
//! collections, the session's configuration, and the records it may add to.
use crate::challenge::{ChallengeEntry, ChallengeSetEntry};
use crate::config::Config;
use crate::entries::{PictureEntry, PlayerEntry, ZoneEntry};
use crate::mirror::DBMirror;
use crate::session::PastGame;
use crate::timer::TimerTracker;
use vstd::prelude::*;

verus! {

/// Read access to the engine's collections.
pub struct EngineContext<'a> {
    pub player_db: &'a DBMirror<PlayerEntry>,
    pub challenge_db: &'a DBMirror<ChallengeEntry>,
    pub challenge_set_db: &'a DBMirror<ChallengeSetEntry>,
    pub zone_db: &'a DBMirror<ZoneEntry>,
}

/// The engine's collections together with what a session derives from its own state.
pub struct SessionContext<'a> {
    pub engine_context: EngineContext<'a>,
    /// The highest points of any team of the session.
    pub top_team_points: Option<u64>,
    pub session_id: u64,
    pub config: Config,
}

/// What a session may add to while it handles a command: past games, pictures and timers.
pub struct EngineRecords {
    pub past_game_db: DBMirror<PastGame>,
    pub picture_db: DBMirror<PictureEntry>,
    pub timer_tracker: TimerTracker,
}

} // verus!
