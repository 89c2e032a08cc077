//! What the game logic needs that is computed in floating point: random draws with a given
//! probability, the point calculation, distances on the globe and the similarity of names. The
//! engine's owner provides them; nothing is assumed of what they return.
use crate::challenge::ChallengeEntry;
use crate::config::Config;
use crate::entries::ZoneEntry;
use vstd::prelude::*;

verus! {

/// The floating point computations the game logic relies on.
pub trait GameEnv {
    /// `true` with probability `num / den` (called with `0 <= num <= den`, `den > 0`).
    fn chance(&self, num: u64, den: u64) -> bool;

    /// Whether the far challenge of the normal period is replaced by a region-specific one:
    /// `true` with probability `config.regio_ratio`, clamped to `0..=1`.
    fn regio_roll(&self, config: &Config) -> bool;

    /// The largest travel time from the centre that the perimeter still allows:
    /// `end + (start - end) * num / den` over the configured perimeter range, computed in floating
    /// point and truncated.
    fn perimeter_distance(&self, config: &Config, num: i64, den: u64) -> u64;

    /// The points of an open challenge, computed in floating point: `base` (the points that
    /// need none) plus, where it got a zone, the zone's zonic kaffness and the travel points for
    /// `travel_minutes` to it, plus the departure points of a ZKaff challenge; then the bias of a
    /// Saturday or Sunday, the bonus for a team `points_to_top` behind the leader, a random
    /// spread, and the cut-off of fixed challenges with `reps` repetitions.
    fn challenge_points(
        &self,
        challenge: &ChallengeEntry,
        base: i64,
        zone: Option<&ZoneEntry>,
        travel_minutes: u64,
        reps: u16,
        points_to_top: Option<u64>,
        config: &Config,
    ) -> i64;

    /// The bounty that completing a challenge worth `points` adds: `points` times the configured
    /// bounty percentage, truncated.
    fn bounty_share(&self, points: u64, config: &Config) -> u64;

    /// Whether two positions (latitude and longitude as bit patterns of `f32`) are more than
    /// `metres` apart on the globe.
    fn farther_than(&self, a: (u32, u32), b: (u32, u32), metres: u32) -> bool;

    /// Whether two team names are so similar that a second team must not take the other name.
    fn names_similar(&self, a: &str, b: &str) -> bool;
}

} // verus!
