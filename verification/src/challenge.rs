//! Challenges as stored, open challenges of a team, and the distance of a challenge from a zone.
use crate::commands::Error;
use crate::entries::ZoneEntry;
use crate::mirror::DBEntry;
use crate::model::{
    copy_action_entry, copy_text, input_from, same_action_entry, same_text, Challenge, ChallengeActionEntry, ChallengeSet, ChallengeStatus, ChallengeType, InputChallenge,
    Moment, RandomPlaceType, RawChallenge, Repetitions, Zone,
};
use std::collections::HashMap;
use vstd::prelude::*;

verus! {

broadcast use vstd::std_specs::hash::group_hash_axioms;

/// A challenge set as stored.
#[derive(Debug, Clone)]
pub struct ChallengeSetEntry {
    pub name: String,
}

impl ChallengeSetEntry {
    /// The set as clients see it, under id `id`.
    pub fn to_sendable(&self, id: u64) -> (s: ChallengeSet)
        ensures
            s.name@ == self.name@,
            s.id == id,
    {
        ChallengeSet { name: self.name.clone(), id }
    }
}

/// A challenge as stored. `bias_sat` and `bias_sun` are `f32` factors held by their bit patterns.
#[derive(Debug, Clone)]
pub struct ChallengeEntry {
    pub kind: ChallengeType,
    pub sets: Vec<u64>,
    pub status: ChallengeStatus,
    pub title: Option<String>,
    pub description: Option<String>,
    /// Whether the place of the challenge is chosen at random when it is generated.
    pub random_place: Option<RandomPlaceType>,
    /// For Kaff and ZKaff challenges: the name of the station.
    pub place: Option<String>,
    pub comment: String,
    pub kaffskala: Option<u8>,
    pub grade: Option<u8>,
    /// The ids of the zones in which the challenge can be completed.
    pub zone: Vec<u64>,
    pub bias_sat: u32,
    pub bias_sun: u32,
    pub walking_time: u8,
    pub stationary_time: u8,
    pub additional_points: i16,
    pub repetitions: Repetitions,
    pub points_per_rep: i16,
    pub station_distance: u16,
    pub time_to_hb: u8,
    pub departures: u8,
    pub dead_end: bool,
    pub no_disembark: bool,
    pub fixed: bool,
    pub in_perimeter_override: Option<bool>,
    pub translated_titles: HashMap<String, String>,
    pub translated_descriptions: HashMap<String, String>,
    pub action: Option<ChallengeActionEntry>,
    pub last_edit: Moment,
}

/// The zone of `zones` that is closest by travel time according to `minutes`, the first one
/// among equally close ones; zones without a travel time are skipped.
pub open spec fn closest_zone_of(zones: Seq<u64>, minutes: Map<u64, u64>) -> Option<u64>
    decreases zones.len(),
{
    if zones.len() == 0 {
        None
    } else {
        let best = closest_zone_of(zones.drop_last(), minutes);
        let z = zones.last();
        if !minutes.contains_key(z) {
            best
        } else {
            match best {
                None => Some(z),
                Some(y) => if minutes[z] < minutes[y] {
                    Some(z)
                } else {
                    Some(y)
                },
            }
        }
    }
}

/// The closest zone, where there is one, has a travel time, is among the zones given and is no
/// farther than any of them; where there is none, no zone has a travel time.
pub proof fn lemma_closest_zone_is_candidate(zones: Seq<u64>, minutes: Map<u64, u64>)
    ensures
        closest_zone_of(zones, minutes) matches Some(z) ==> minutes.contains_key(z)
            && zones.contains(z) && forall|i: int|
            0 <= i < zones.len() && minutes.contains_key(zones[i]) ==> minutes[z] <= minutes[zones[i]],
        closest_zone_of(zones, minutes) is None ==> forall|i: int|
            0 <= i < zones.len() ==> !minutes.contains_key(zones[i]),
    decreases zones.len(),
{
    if zones.len() > 0 {
        let t = zones.drop_last();
        lemma_closest_zone_is_candidate(t, minutes);
        let last = zones.len() - 1;
        assert forall|i: int| 0 <= i < t.len() implies t[i] == zones[i] by {}
        if let Some(z) = closest_zone_of(zones, minutes) {
            if closest_zone_of(t, minutes) == Some(z) {
                let j = choose|j: int| 0 <= j < t.len() && t[j] == z;
                assert(zones[j] == z);
            } else {
                assert(zones[last] == z);
            }
            assert forall|i: int|
                0 <= i < zones.len() && minutes.contains_key(zones[i]) implies minutes[z]
                <= minutes[zones[i]] by {
                if i < t.len() {
                    assert(t[i] == zones[i]);
                    assert(minutes.contains_key(t[i]));
                }
            }
        }
    }
}

/// The travel time to the closest zone of the challenge, or 0 where it has none.
pub open spec fn distance_of(zones: Seq<u64>, minutes: Map<u64, u64>) -> u64 {
    match closest_zone_of(zones, minutes) {
        Some(z) => minutes[z],
        None => 0,
    }
}

/// The stored form of the challenge `v` sent by a client, last edited at `now`.
pub open spec fn stored_from(v: InputChallenge, now: Moment) -> ChallengeEntry {
    ChallengeEntry {
        kind: v.kind,
        sets: v.sets,
        status: v.status,
        title: v.title,
        description: v.description,
        random_place: v.random_place,
        place: v.place,
        comment: v.comment,
        kaffskala: v.kaffskala,
        grade: v.grade,
        zone: v.zone,
        bias_sat: v.bias_sat,
        bias_sun: v.bias_sun,
        walking_time: v.walking_time,
        stationary_time: v.stationary_time,
        additional_points: v.additional_points,
        repetitions: v.repetitions,
        points_per_rep: v.points_per_rep,
        station_distance: v.station_distance,
        time_to_hb: v.time_to_hb,
        departures: v.departures,
        dead_end: v.dead_end,
        no_disembark: v.no_disembark,
        fixed: v.fixed,
        in_perimeter_override: v.in_perimeter_override,
        translated_titles: v.translated_titles,
        translated_descriptions: v.translated_descriptions,
        action: v.action,
        last_edit: now,
    }
}

impl ChallengeEntry {
    /// Selects, among the zones of the challenge that `from` has a travel time to, the closest
    /// one (the first of equally close ones).
    pub fn closest_zone(&self, from: &ZoneEntry) -> (r: Option<u64>)
        ensures
            r == closest_zone_of(self.zone@, from.minutes_to@),
    {
        let mut best: Option<u64> = None;
        let mut best_minutes: u64 = 0;
        let mut i: usize = 0;
        while i < self.zone.len()
            invariant
                i <= self.zone@.len(),
                best == closest_zone_of(self.zone@.take(i as int), from.minutes_to@),
                best matches Some(b) ==> from.minutes_to@.contains_key(b) && best_minutes
                    == from.minutes_to@[b],
            decreases self.zone@.len() - i,
        {
            let z = self.zone[i];
            assert(self.zone@.take(i as int + 1).drop_last() =~= self.zone@.take(i as int));
            match from.minutes_to.get(&z) {
                Some(m) => {
                    match best {
                        None => {
                            best = Some(z);
                            best_minutes = *m;
                        },
                        Some(_) => {
                            if *m < best_minutes {
                                best = Some(z);
                                best_minutes = *m;
                            }
                        },
                    }
                },
                None => {},
            }
            i = i + 1;
        }
        assert(self.zone@.take(self.zone@.len() as int) =~= self.zone@);
        best
    }

    /// The travel time from `from` to the closest zone of the challenge, 0 where there is none.
    pub fn distance(&self, from: &ZoneEntry) -> (d: u64)
        ensures
            d == distance_of(self.zone@, from.minutes_to@),
    {
        match self.closest_zone(from) {
            Some(zone) => {
                proof {
                    lemma_closest_zone_is_candidate(self.zone@, from.minutes_to@);
                }
                match from.minutes_to.get(&zone) {
                    Some(m) => *m,
                    None => 0,
                }
            },
            None => 0,
        }
    }

    /// Stores a challenge sent by a client, with `now` as its time of last edit.
    pub fn from_input(v: InputChallenge, now: Moment) -> (c: ChallengeEntry)
        ensures
            c == stored_from(v, now),
            c.kind == v.kind,
            c.sets == v.sets,
            c.status == v.status,
            c.title == v.title,
            c.description == v.description,
            c.random_place == v.random_place,
            c.place == v.place,
            c.comment == v.comment,
            c.kaffskala == v.kaffskala,
            c.grade == v.grade,
            c.zone == v.zone,
            c.bias_sat == v.bias_sat,
            c.bias_sun == v.bias_sun,
            c.walking_time == v.walking_time,
            c.stationary_time == v.stationary_time,
            c.additional_points == v.additional_points,
            c.repetitions == v.repetitions,
            c.points_per_rep == v.points_per_rep,
            c.station_distance == v.station_distance,
            c.time_to_hb == v.time_to_hb,
            c.departures == v.departures,
            c.dead_end == v.dead_end,
            c.no_disembark == v.no_disembark,
            c.fixed == v.fixed,
            c.in_perimeter_override == v.in_perimeter_override,
            c.translated_titles == v.translated_titles,
            c.translated_descriptions == v.translated_descriptions,
            c.action == v.action,
            c.last_edit == now,
    {
        ChallengeEntry {
            kind: v.kind,
            sets: v.sets,
            status: v.status,
            title: v.title,
            description: v.description,
            random_place: v.random_place,
            place: v.place,
            comment: v.comment,
            kaffskala: v.kaffskala,
            grade: v.grade,
            zone: v.zone,
            bias_sat: v.bias_sat,
            bias_sun: v.bias_sun,
            walking_time: v.walking_time,
            stationary_time: v.stationary_time,
            additional_points: v.additional_points,
            repetitions: v.repetitions,
            points_per_rep: v.points_per_rep,
            station_distance: v.station_distance,
            time_to_hb: v.time_to_hb,
            departures: v.departures,
            dead_end: v.dead_end,
            no_disembark: v.no_disembark,
            fixed: v.fixed,
            in_perimeter_override: v.in_perimeter_override,
            translated_titles: v.translated_titles,
            translated_descriptions: v.translated_descriptions,
            action: v.action,
            last_edit: now,
        }
    }

    /// The challenge as clients see it, under id `id`, with its sets and zones looked up in the
    /// given entries (the first entry with a matching id). A set or zone that cannot be found is
    /// an internal error.
    pub fn to_sendable(
        &self,
        id: u64,
        challenge_sets: &[DBEntry<ChallengeSetEntry>],
        zone_entries: &[DBEntry<ZoneEntry>],
    ) -> (r: Result<RawChallenge, Error>)
        ensures
            r is Ok <==> (forall|k: int|
                0 <= k < self.sets@.len() ==> id_listed(challenge_sets@, #[trigger] self.sets@[k]))
                && (forall|k: int|
                0 <= k < self.zone@.len() ==> id_listed(zone_entries@, #[trigger] self.zone@[k])),
            r matches Err(e) ==> e == Error::InternalError,
            r matches Ok(c) ==> sendable_fields(*self, id, c),
            r matches Ok(c) ==> c.sets@.len() == self.sets@.len() && forall|k: int|
                0 <= k < self.sets@.len() ==> set_resolves(challenge_sets@, self.sets@[k], #[trigger] c.sets@[k]),
            r matches Ok(c) ==> c.zone@.len() == self.zone@.len() && forall|k: int|
                0 <= k < self.zone@.len() ==> zone_resolves(zone_entries@, self.zone@[k], #[trigger] c.zone@[k]),
    {
        let mut sets: Vec<ChallengeSet> = Vec::new();
        let mut k: usize = 0;
        while k < self.sets.len()
            invariant
                k <= self.sets@.len(),
                sets@.len() == k,
                forall|q: int| 0 <= q < k ==> set_resolves(challenge_sets@, self.sets@[q], #[trigger] sets@[q]),
                forall|q: int| 0 <= q < k ==> id_listed(challenge_sets@, #[trigger] self.sets@[q]),
            decreases self.sets@.len() - k,
        {
            let s = self.sets[k];
            let mut j: usize = 0;
            while j < challenge_sets.len() && challenge_sets[j].id != s
                invariant
                    j <= challenge_sets@.len(),
                    forall|l: int| 0 <= l < j ==> challenge_sets@[l].id != s,
                decreases challenge_sets@.len() - j,
            {
                j = j + 1;
            }
            if j >= challenge_sets.len() {
                assert(!id_listed(challenge_sets@, self.sets@[k as int]));
                return Err(Error::InternalError);
            }
            let set = challenge_sets[j].contents.to_sendable(s);
            assert(first_with_id(challenge_sets@, s, j as int));
            sets.push(set);
            assert(set_resolves(challenge_sets@, self.sets@[k as int], sets@[k as int]));
            k = k + 1;
        }
        let mut zones: Vec<Zone> = Vec::new();
        let mut k: usize = 0;
        let ghost n_sets = sets@.len();
        while k < self.zone.len()
            invariant
                sets@.len() == self.sets@.len(),
                forall|q: int| 0 <= q < self.sets@.len() ==> set_resolves(challenge_sets@, self.sets@[q], #[trigger] sets@[q]),
                k <= self.zone@.len(),
                zones@.len() == k,
                forall|q: int| 0 <= q < k ==> zone_resolves(zone_entries@, self.zone@[q], #[trigger] zones@[q]),
                forall|q: int|
                    0 <= q < self.sets@.len() ==> id_listed(challenge_sets@, #[trigger] self.sets@[q]),
                forall|q: int| 0 <= q < k ==> id_listed(zone_entries@, #[trigger] self.zone@[q]),
            decreases self.zone@.len() - k,
        {
            let s = self.zone[k];
            let mut j: usize = 0;
            while j < zone_entries.len() && zone_entries[j].id != s
                invariant
                    j <= zone_entries@.len(),
                    forall|l: int| 0 <= l < j ==> zone_entries@[l].id != s,
                decreases zone_entries@.len() - j,
            {
                j = j + 1;
            }
            if j >= zone_entries.len() {
                assert(!id_listed(zone_entries@, self.zone@[k as int]));
                return Err(Error::InternalError);
            }
            let z = zone_entries[j].contents.to_sendable(s);
            assert(first_with_id(zone_entries@, s, j as int));
            zones.push(z);
            assert(zone_resolves(zone_entries@, self.zone@[k as int], zones@[k as int]));
            k = k + 1;
        }
        Ok(
            RawChallenge {
                kind: self.kind,
                sets,
                status: self.status,
                title: copy_text(&self.title),
                description: copy_text(&self.description),
                random_place: self.random_place,
                place: copy_text(&self.place),
                comment: self.comment.clone(),
                kaffskala: self.kaffskala,
                grade: self.grade,
                zone: zones,
                bias_sat: self.bias_sat,
                bias_sun: self.bias_sun,
                walking_time: self.walking_time,
                stationary_time: self.stationary_time,
                additional_points: self.additional_points,
                repetitions: self.repetitions,
                points_per_rep: self.points_per_rep,
                station_distance: self.station_distance,
                time_to_hb: self.time_to_hb,
                departures: self.departures,
                dead_end: self.dead_end,
                no_disembark: self.no_disembark,
                fixed: self.fixed,
                in_perimeter_override: self.in_perimeter_override,
                action: copy_action_entry(&self.action),
                translated_titles: self.translated_titles.clone(),
                translated_descriptions: self.translated_descriptions.clone(),
                last_edit: self.last_edit,
                id: Some(id),
            },
        )
    }
}

/// `c` shows, under id `id`, every field of the stored challenge `e` but its sets and zones:
/// texts with the same characters, maps with the same entries, the rest equal.
pub open spec fn sendable_fields(e: ChallengeEntry, id: u64, c: RawChallenge) -> bool {
    &&& c.id == Some(id)
    &&& c.kind == e.kind
    &&& c.status == e.status
    &&& same_text(c.title, e.title)
    &&& same_text(c.description, e.description)
    &&& c.random_place == e.random_place
    &&& same_text(c.place, e.place)
    &&& c.comment@ == e.comment@
    &&& c.kaffskala == e.kaffskala
    &&& c.grade == e.grade
    &&& c.bias_sat == e.bias_sat
    &&& c.bias_sun == e.bias_sun
    &&& c.walking_time == e.walking_time
    &&& c.stationary_time == e.stationary_time
    &&& c.additional_points == e.additional_points
    &&& c.repetitions == e.repetitions
    &&& c.points_per_rep == e.points_per_rep
    &&& c.station_distance == e.station_distance
    &&& c.time_to_hb == e.time_to_hb
    &&& c.departures == e.departures
    &&& c.dead_end == e.dead_end
    &&& c.no_disembark == e.no_disembark
    &&& c.fixed == e.fixed
    &&& c.in_perimeter_override == e.in_perimeter_override
    &&& same_action_entry(c.action, e.action)
    &&& c.translated_titles@ == e.translated_titles@
    &&& c.translated_descriptions@ == e.translated_descriptions@
    &&& c.last_edit == e.last_edit
}

/// `a` and `b` are the same stored challenge but for the time of their last edit: texts with the
/// same characters, sequences and maps with the same entries, the rest equal.
pub open spec fn same_but_last_edit(a: ChallengeEntry, b: ChallengeEntry) -> bool {
    &&& a.kind == b.kind
    &&& a.sets@ == b.sets@
    &&& a.status == b.status
    &&& same_text(a.title, b.title)
    &&& same_text(a.description, b.description)
    &&& a.random_place == b.random_place
    &&& same_text(a.place, b.place)
    &&& a.comment@ == b.comment@
    &&& a.kaffskala == b.kaffskala
    &&& a.grade == b.grade
    &&& a.zone@ == b.zone@
    &&& a.bias_sat == b.bias_sat
    &&& a.bias_sun == b.bias_sun
    &&& a.walking_time == b.walking_time
    &&& a.stationary_time == b.stationary_time
    &&& a.additional_points == b.additional_points
    &&& a.repetitions == b.repetitions
    &&& a.points_per_rep == b.points_per_rep
    &&& a.station_distance == b.station_distance
    &&& a.time_to_hb == b.time_to_hb
    &&& a.departures == b.departures
    &&& a.dead_end == b.dead_end
    &&& a.no_disembark == b.no_disembark
    &&& a.fixed == b.fixed
    &&& a.in_perimeter_override == b.in_perimeter_override
    &&& same_action_entry(a.action, b.action)
    &&& a.translated_titles@ == b.translated_titles@
    &&& a.translated_descriptions@ == b.translated_descriptions@
}

/// Law: a stored challenge that a client receives (`to_sendable`) and sends back as it came
/// (`InputChallenge::from_raw`) is stored (`from_input`) as it was, but for the time of its last
/// edit.
pub proof fn law_sendable_round_trip<'a>(
    e: ChallengeEntry,
    id: u64,
    sets: Seq<DBEntry<'a, ChallengeSetEntry>>,
    zones: Seq<DBEntry<'a, ZoneEntry>>,
    c: RawChallenge,
    i: InputChallenge,
    now: Moment,
)
    requires
        sendable_fields(e, id, c),
        c.sets@.len() == e.sets@.len(),
        forall|k: int| 0 <= k < e.sets@.len() ==> set_resolves(sets, e.sets@[k], #[trigger] c.sets@[k]),
        c.zone@.len() == e.zone@.len(),
        forall|k: int| 0 <= k < e.zone@.len() ==> zone_resolves(zones, e.zone@[k], #[trigger] c.zone@[k]),
        input_from(c, i),
    ensures
        same_but_last_edit(stored_from(i, now), e),
{
    assert(i.sets@ =~= e.sets@) by {
        assert forall|k: int| 0 <= k < e.sets@.len() implies i.sets@[k] == e.sets@[k] by {
            assert(set_resolves(sets, e.sets@[k], c.sets@[k]));
        }
    }
    assert(i.zone@ =~= e.zone@) by {
        assert forall|k: int| 0 <= k < e.zone@.len() implies i.zone@[k] == e.zone@[k] by {
            assert(zone_resolves(zones, e.zone@[k], c.zone@[k]));
        }
    }
}

/// Some entry of `entries` has id `id`.
pub open spec fn id_listed<'a, T>(entries: Seq<DBEntry<'a, T>>, id: u64) -> bool {
    exists|j: int| 0 <= j < entries.len() && entries[j].id == id
}

/// `j` is the first index of `entries` with id `id`.
pub open spec fn first_with_id<'a, T>(entries: Seq<DBEntry<'a, T>>, id: u64, j: int) -> bool {
    0 <= j < entries.len() && entries[j].id == id && forall|l: int|
        0 <= l < j ==> entries[l].id != id
}

/// `s` is the set with id `id`, named as the first entry with that id.
pub open spec fn set_resolves<'a>(
    entries: Seq<DBEntry<'a, ChallengeSetEntry>>,
    id: u64,
    s: ChallengeSet,
) -> bool {
    s.id == id && exists|j: int|
        first_with_id(entries, id, j) && s.name@ == entries[j].contents.name@
}

/// `z` is the zone with id `id`, as the first entry with that id.
pub open spec fn zone_resolves<'a>(entries: Seq<DBEntry<'a, ZoneEntry>>, id: u64, z: Zone) -> bool {
    z.id == id && exists|j: int| first_with_id(entries, id, j) && entries[j].contents.shows_as(id, z)
}

/// A special quirk of an open challenge.
#[derive(Debug, Clone)]
pub enum ChallengeAction {
    /// The challenge cannot be completed before this moment.
    UncompletableMinutes(Moment),
    Trap { completable_after: Moment, catcher_message: Option<String> },
}

/// A challenge a team can currently complete, as stored.
#[derive(Debug, Clone)]
pub struct InOpenChallenge {
    pub id: u64,
    pub title: String,
    pub description: String,
    pub points: u64,
    pub action: Option<ChallengeAction>,
    /// The id of the zone of the challenge, if it has one.
    pub zone: Option<u64>,
}

impl ChallengeAction {
    /// `self` and `other` are the same action, strings compared by their text.
    pub open spec fn same_as(self, other: ChallengeAction) -> bool {
        match (self, other) {
            (ChallengeAction::UncompletableMinutes(a), ChallengeAction::UncompletableMinutes(b)) => a
                == b,
            (
                ChallengeAction::Trap { completable_after: a, catcher_message: m },
                ChallengeAction::Trap { completable_after: b, catcher_message: n },
            ) => a == b && match (m, n) {
                (None, None) => true,
                (Some(x), Some(y)) => x@ == y@,
                _ => false,
            },
            _ => false,
        }
    }

    /// A copy of the action.
    pub fn duplicate(&self) -> (a: ChallengeAction)
        ensures
            a.same_as(*self),
    {
        match self {
            ChallengeAction::UncompletableMinutes(t) => ChallengeAction::UncompletableMinutes(*t),
            ChallengeAction::Trap { completable_after, catcher_message } => ChallengeAction::Trap {
                completable_after: *completable_after,
                catcher_message: match catcher_message {
                    Some(m) => Some(m.clone()),
                    None => None,
                },
            },
        }
    }
}

impl InOpenChallenge {
    /// `self` and `other` are the same challenge, strings compared by their text.
    pub open spec fn same_as(self, other: InOpenChallenge) -> bool {
        &&& self.id == other.id
        &&& self.title@ == other.title@
        &&& self.description@ == other.description@
        &&& self.points == other.points
        &&& self.zone == other.zone
        &&& match (self.action, other.action) {
            (None, None) => true,
            (Some(a), Some(b)) => a.same_as(b),
            _ => false,
        }
    }

    /// A copy of the challenge.
    pub fn duplicate(&self) -> (c: InOpenChallenge)
        ensures
            c.same_as(*self),
    {
        InOpenChallenge {
            id: self.id,
            title: self.title.clone(),
            description: self.description.clone(),
            points: self.points,
            action: match &self.action {
                Some(a) => Some(a.duplicate()),
                None => None,
            },
            zone: self.zone,
        }
    }

    /// Whether the challenge can be completed at `now`: always, unless its action holds it back
    /// until a later moment.
    pub open spec fn spec_completable(&self, now: Moment) -> bool {
        match self.action {
            None => true,
            Some(ChallengeAction::UncompletableMinutes(t)) => now > t,
            Some(ChallengeAction::Trap { completable_after, .. }) => now > completable_after,
        }
    }

    /// Whether the challenge can be completed at `now`.
    pub fn completable(&self, now: Moment) -> (b: bool)
        ensures
            b == self.spec_completable(now),
    {
        match &self.action {
            None => true,
            Some(action) => match action {
                ChallengeAction::UncompletableMinutes(t) => now > *t,
                ChallengeAction::Trap { completable_after, .. } => now > *completable_after,
            },
        }
    }

    /// The challenge as clients see it.
    pub fn to_sendable(&self) -> (c: Challenge)
        ensures
            c.title@ == self.title@,
            c.description@ == self.description@,
            c.points == self.points,
    {
        Challenge {
            title: self.title.clone(),
            points: self.points,
            description: self.description.clone(),
        }
    }
}

} // verus!
