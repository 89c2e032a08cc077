//! An in-memory mirror of a database collection.
//!
//! The engine keeps every entry of a collection in memory, indexed by its id, and remembers for
//! each entry whether it changed since the last save and whether it is being deleted. A save
//! extracts the changed entries and the ids to delete; slots are only freed once a deletion is
//! confirmed.
use vstd::prelude::*;

verus! {

/// The state of a mirrored entry with respect to the database on disk.
#[derive(Debug, Clone, Copy, PartialEq, Eq, Structural)]
pub enum DBStatus {
    Unchanged,
    Edited,
    ToBeDeleted,
    BeingDeleted,
}

/// A borrowed entry of a mirror.
#[derive(Debug)]
pub struct DBEntry<'a, T> {
    pub id: u64,
    pub contents: &'a T,
}

/// An owned copy of an entry of a mirror.
#[derive(Debug, Clone)]
pub struct ClonedDBEntry<T> {
    pub id: u64,
    pub contents: T,
}

impl<T> ClonedDBEntry<T> {
    /// Borrows the copy as an entry.
    pub fn as_borrowed(&self) -> (e: DBEntry<'_, T>)
        ensures
            e.id == self.id,
            *e.contents == self.contents,
    {
        DBEntry { id: self.id, contents: &self.contents }
    }
}

impl<'a, T: Clone> DBEntry<'a, T> {
    /// Copies the entry.
    pub fn clone_contents(&self) -> (c: ClonedDBEntry<T>)
        ensures
            c.id == self.id,
            cloned(*self.contents, c.contents),
    {
        ClonedDBEntry { id: self.id, contents: self.contents.clone() }
    }
}

/// The slot of a mirror: empty, or an entry with its status.
pub type Slot<T> = Option<(T, DBStatus)>;

/// The number of slots of `s` holding an entry that can be read.
pub open spec fn live_count<T>(s: Seq<Slot<T>>) -> nat
    decreases s.len(),
{
    if s.len() == 0 {
        0
    } else {
        live_count(s.drop_last()) + if slot_live(s.last()) {
            1nat
        } else {
            0nat
        }
    }
}

/// A status of an entry that can still be read.
pub open spec fn live_status(s: DBStatus) -> bool {
    s == DBStatus::Unchanged || s == DBStatus::Edited
}

/// The slot holds an entry that can be read.
pub open spec fn slot_live<T>(e: Slot<T>) -> bool {
    e is Some && live_status((e->0).1)
}

/// The slot holds an entry with the given status.
pub open spec fn slot_has<T>(e: Slot<T>, st: DBStatus) -> bool {
    e is Some && (e->0).1 == st
}

/// The entry of a slot (meaningful where it holds one).
pub open spec fn slot_value<T>(e: Slot<T>) -> T {
    (e->0).0
}

/// What reading id `id` gives in slots `s`.
pub open spec fn lookup<T>(s: Seq<Slot<T>>, id: int) -> Option<T> {
    if 0 <= id < s.len() && slot_live(s[id]) {
        Some(slot_value(s[id]))
    } else {
        None
    }
}

/// The slot of `id` after loading `loaded`: the last loaded entry with that id, unchanged.
#[verifier::opaque]
pub open spec fn loaded_slot<T>(loaded: Seq<(u64, T)>, id: int) -> Slot<T> {
    if exists|i: int| 0 <= i < loaded.len() && loaded[i].0 == id {
        let i = choose|i: int|
            0 <= i < loaded.len() && loaded[i].0 == id && forall|j: int|
                i < j < loaded.len() ==> loaded[j].0 != id;
        Some((loaded[i].1, DBStatus::Unchanged))
    } else {
        None
    }
}

/// The slots after `extract_changes`: edited entries become unchanged.
pub open spec fn after_extract_changes<T>(s: Seq<Slot<T>>) -> Seq<Slot<T>> {
    Seq::new(
        s.len(),
        |i: int|
            if slot_has(s[i], DBStatus::Edited) {
                Some((slot_value(s[i]), DBStatus::Unchanged))
            } else {
                s[i]
            },
    )
}

/// The slots after `extract_deletions`: entries to be deleted become entries being deleted.
pub open spec fn after_extract_deletions<T>(s: Seq<Slot<T>>) -> Seq<Slot<T>> {
    Seq::new(
        s.len(),
        |i: int|
            if slot_has(s[i], DBStatus::ToBeDeleted) {
                Some((slot_value(s[i]), DBStatus::BeingDeleted))
            } else {
                s[i]
            },
    )
}

/// The slots after `clear_pending_deletions`: slots of entries being deleted are freed.
pub open spec fn after_clear_pending<T>(s: Seq<Slot<T>>) -> Seq<Slot<T>> {
    Seq::new(
        s.len(),
        |i: int|
            if slot_has(s[i], DBStatus::BeingDeleted) {
                None
            } else {
                s[i]
            },
    )
}

/// The slots after `delete_all`: every entry is to be deleted.
pub open spec fn after_delete_all<T>(s: Seq<Slot<T>>) -> Seq<Slot<T>> {
    Seq::new(
        s.len(),
        |i: int|
            if s[i] is Some {
                Some((slot_value(s[i]), DBStatus::ToBeDeleted))
            } else {
                s[i]
            },
    )
}

/// `ids` lists, in increasing order, exactly the indices of `s` whose slot has status `st`.
pub open spec fn lists_status<T>(s: Seq<Slot<T>>, ids: Seq<u64>, st: DBStatus) -> bool {
    &&& forall|k: int| 0 <= k < ids.len() ==> ids[k] < s.len() && slot_has(s[ids[k] as int], st)
    &&& forall|k: int, l: int| 0 <= k < l < ids.len() ==> ids[k] < ids[l]
    &&& forall|i: int| 0 <= i < s.len() && slot_has(s[i], st) ==> exists|k: int| 0 <= k < ids.len() && ids[k] == i
}

/// `ids` lists, in increasing order, exactly the indices of `s` whose slot is readable.
pub open spec fn lists_live<T>(s: Seq<Slot<T>>, ids: Seq<u64>) -> bool {
    &&& forall|k: int| 0 <= k < ids.len() ==> ids[k] < s.len() && slot_live(s[ids[k] as int])
    &&& forall|k: int, l: int| 0 <= k < l < ids.len() ==> ids[k] < ids[l]
    &&& forall|i: int| 0 <= i < s.len() && slot_live(s[i]) ==> exists|k: int| 0 <= k < ids.len() && ids[k] == i
}

/// Loading one more entry before `later`: a later entry with the same id still wins.
proof fn lemma_loaded_slot_prepend<T>(e: (u64, T), later: Seq<(u64, T)>, id: int)
    ensures
        loaded_slot(seq![e] + later, id) == (if loaded_slot(later, id) is Some {
            loaded_slot(later, id)
        } else if e.0 == id {
            Some((e.1, DBStatus::Unchanged))
        } else {
            None
        }),
{
    reveal(loaded_slot);
    let s2 = seq![e] + later;
    assert forall|j: int| 0 <= j < later.len() implies s2[j + 1] == later[j] by {}
    if exists|i: int| 0 <= i < later.len() && later[i].0 == id {
        lemma_last_occurrence(later, id);
        let i1 = choose|i: int|
            0 <= i < later.len() && later[i].0 == id && forall|j: int|
                i < j < later.len() ==> later[j].0 != id;
        assert(s2[i1 + 1].0 == id);
        assert forall|j: int| i1 + 1 < j < s2.len() implies s2[j].0 != id by {
            assert(s2[j] == later[j - 1]);
        }
        let i2 = choose|i: int|
            0 <= i < s2.len() && s2[i].0 == id && forall|j: int| i < j < s2.len() ==> s2[j].0 != id;
        assert(i2 == i1 + 1);
    } else if e.0 == id {
        assert(s2[0].0 == id);
        lemma_last_occurrence(s2, id);
        assert forall|j: int| 0 < j < s2.len() implies s2[j].0 != id by {
            assert(s2[j] == later[j - 1]);
        }
        let i2 = choose|i: int|
            0 <= i < s2.len() && s2[i].0 == id && forall|j: int| i < j < s2.len() ==> s2[j].0 != id;
        assert(i2 == 0);
    } else {
        assert forall|i: int| 0 <= i < s2.len() implies s2[i].0 != id by {
            if i > 0 {
                assert(s2[i] == later[i - 1]);
            }
        }
    }
}

/// Where an id occurs in a sequence, it has a last occurrence.
proof fn lemma_last_occurrence<T>(s: Seq<(u64, T)>, id: int)
    requires
        exists|i: int| 0 <= i < s.len() && s[i].0 == id,
    ensures
        exists|i: int| 0 <= i < s.len() && s[i].0 == id && forall|j: int| i < j < s.len() ==> s[j].0 != id,
    decreases s.len(),
{
    if s.last().0 == id {
        assert(s[s.len() - 1].0 == id);
    } else {
        let i0 = choose|i: int| 0 <= i < s.len() && s[i].0 == id;
        let t = s.drop_last();
        assert(t[i0].0 == id);
        lemma_last_occurrence(t, id);
        let i1 = choose|i: int| 0 <= i < t.len() && t[i].0 == id && forall|j: int| i < j < t.len() ==> t[j].0 != id;
        assert(s[i1].0 == id);
        assert forall|j: int| i1 < j < s.len() implies s[j].0 != id by {
            if j < t.len() {
                assert(s[j] == t[j]);
            }
        }
    }
}

/// `s2` is `s` with `x` added at `id`: the first free slot, or a new slot at the end.
pub open spec fn added<T>(s: Seq<Slot<T>>, s2: Seq<Slot<T>>, id: int, x: T) -> bool {
    &&& 0 <= id <= s.len()
    &&& forall|j: int| 0 <= j < id ==> s[j] is Some
    &&& id < s.len() ==> s[id] is None && s2 == s.update(id, Some((x, DBStatus::Edited)))
    &&& id == s.len() ==> s2 == s.push(Some((x, DBStatus::Edited)))
}

/// Reading an entry gives back what was added, and adding leaves every other entry as it was.
pub proof fn law_add_then_get<T>(s: Seq<Slot<T>>, s2: Seq<Slot<T>>, id: int, x: T, other: int)
    requires
        added(s, s2, id, x),
        other != id,
    ensures
        lookup(s2, id) == Some(x),
        lookup(s2, other) == lookup(s, other),
        slot_has(s2[id], DBStatus::Edited),
{
}

/// Adding reuses the lowest free slot: no free slot comes before the one chosen.
pub proof fn law_add_takes_first_free<T>(s: Seq<Slot<T>>, s2: Seq<Slot<T>>, id: int, x: T, j: int)
    requires
        added(s, s2, id, x),
        0 <= j < s.len(),
        s[j] is None,
    ensures
        id <= j,
{
}

/// `count` and `get_all` agree: any list of exactly the readable entries (as `get_all` gives
/// their ids) is as long as the number of readable entries (as `count` gives it).
pub proof fn law_count_is_number_listed<T>(s: Seq<Slot<T>>, ids: Seq<u64>)
    requires
        lists_live(s, ids),
    ensures
        ids.len() == live_count(s),
    decreases s.len(),
{
    if s.len() == 0 {
        if ids.len() > 0 {
            assert(ids[0] < s.len());
        }
    } else {
        let n = s.len() - 1;
        let t = s.drop_last();
        assert forall|i: int| 0 <= i < t.len() implies t[i] == s[i] by {}
        if slot_live(s.last()) {
            let k = choose|k: int| 0 <= k < ids.len() && ids[k] == n;
            let last = ids.len() - 1;
            if k < last {
                assert(ids[k] < ids[last]);
                assert(ids[last] < s.len());
            }
            let rest = ids.drop_last();
            assert forall|i: int| 0 <= i < t.len() && slot_live(t[i]) implies exists|j: int|
                0 <= j < rest.len() && rest[j] == i by {
                assert(slot_live(s[i]));
                let j = choose|j: int| 0 <= j < ids.len() && ids[j] == i;
                assert(j != last);
                assert(rest[j] == i);
            }
            assert forall|j: int| 0 <= j < rest.len() implies rest[j] < t.len() && slot_live(t[rest[j] as int]) by {
                assert(ids[j] < ids[last]);
            }
            law_count_is_number_listed(t, rest);
        } else {
            assert forall|j: int| 0 <= j < ids.len() implies ids[j] < t.len() && slot_live(t[ids[j] as int]) by {
                assert(ids[j] != n);
            }
            law_count_is_number_listed(t, ids);
        }
    }
}

/// An added entry is among the changes that the next extraction copies out (`lists_status` of
/// the slots after the addition, as `extract_changes` gives them), with what was added.
pub proof fn law_added_is_extracted<T>(s: Seq<Slot<T>>, s2: Seq<Slot<T>>, id: int, x: T, ids: Seq<u64>)
    requires
        added(s, s2, id, x),
        lists_status(s2, ids, DBStatus::Edited),
    ensures
        exists|k: int| 0 <= k < ids.len() && ids[k] == id,
        slot_value(s2[id]) == x,
{
    assert(slot_has(s2[id], DBStatus::Edited));
}

/// An entry changed through `get_mut` is among the next extracted changes, and extracting the
/// changes reads nothing differently and leaves no change behind.
pub proof fn law_edit_is_saved<T>(s: Seq<Slot<T>>, id: int, x: T)
    requires
        0 <= id < s.len(),
        slot_live(s[id]),
    ensures
        slot_has(s.update(id, Some((x, DBStatus::Edited)))[id], DBStatus::Edited),
        forall|j: int| lookup(after_extract_changes(s), j) == lookup(s, j),
        forall|j: int| 0 <= j < s.len() ==> !slot_has(after_extract_changes(s)[j], DBStatus::Edited),
        forall|ids: Seq<u64>|
            lists_status(after_extract_changes(s), ids, DBStatus::Edited) ==> ids.len() == 0,
{
    assert forall|ids: Seq<u64>|
        lists_status(after_extract_changes(s), ids, DBStatus::Edited) implies ids.len() == 0 by {
        if ids.len() > 0 {
            assert(slot_has(after_extract_changes(s)[ids[0] as int], DBStatus::Edited));
        }
    }
}

/// The life of a deleted entry: deleting hides it at once, the next extraction of deletions
/// lists it and marks it as being deleted, and once that is confirmed its slot is free again,
/// where the next addition can put an entry.
pub proof fn law_delete_lifecycle<T>(s: Seq<Slot<T>>, id: int, ids: Seq<u64>)
    requires
        0 <= id < s.len(),
        slot_live(s[id]),
        lists_status(
            s.update(id, Some((slot_value(s[id]), DBStatus::ToBeDeleted))),
            ids,
            DBStatus::ToBeDeleted,
        ),
    ensures
        lookup(s.update(id, Some((slot_value(s[id]), DBStatus::ToBeDeleted))), id) is None,
        exists|k: int| 0 <= k < ids.len() && ids[k] == id,
        slot_has(
            after_extract_deletions(s.update(id, Some((slot_value(s[id]), DBStatus::ToBeDeleted))))[id],
            DBStatus::BeingDeleted,
        ),
        after_clear_pending(
            after_extract_deletions(s.update(id, Some((slot_value(s[id]), DBStatus::ToBeDeleted))))
        )[id] is None,
{
    let s1 = s.update(id, Some((slot_value(s[id]), DBStatus::ToBeDeleted)));
    assert(slot_has(s1[id], DBStatus::ToBeDeleted));
}

/// An entry to be deleted keeps its slot until its deletion has been extracted.
pub proof fn law_clear_keeps_unsaved_deletions<T>(s: Seq<Slot<T>>, id: int)
    requires
        0 <= id < s.len(),
        slot_has(s[id], DBStatus::ToBeDeleted),
    ensures
        after_clear_pending(s)[id] == s[id],
{
}

/// After deleting everything, nothing can be read.
pub proof fn law_delete_all_hides_all<T>(s: Seq<Slot<T>>, id: int)
    ensures
        lookup(after_delete_all(s), id) is None,
{
}

/// The slots `s` mirror the entries `loaded` as loaded from the database: one slot per id up to
/// the largest id (at least one slot), each holding the last entry loaded with its id, unchanged.
pub open spec fn mirrors_loaded<T>(s: Seq<Slot<T>>, loaded: Seq<(u64, T)>) -> bool {
    &&& s.len() >= 1
    &&& forall|i: int| 0 <= i < loaded.len() ==> loaded[i].0 < s.len()
    &&& s.len() == 1 || exists|j: int| 0 <= j < loaded.len() && loaded[j].0 == s.len() - 1
    &&& forall|id: int| 0 <= id < s.len() ==> s[id] == loaded_slot(loaded, id)
}

/// A mirror of a database collection that holds all entries in memory, indexed by id.
#[derive(Debug, Clone)]
pub struct DBMirror<T> {
    entries: Vec<Slot<T>>,
}

impl<T> View for DBMirror<T> {
    type V = Seq<Slot<T>>;

    closed spec fn view(&self) -> Seq<Slot<T>> {
        self.entries@
    }
}

impl<T> DBMirror<T> {
    /// The entry with id `id`, where it can be read.
    pub open spec fn spec_get(&self, id: int) -> Option<T> {
        lookup(self@, id)
    }

    /// An empty mirror.
    pub fn new() -> (m: Self)
        ensures
            m@ == Seq::<Slot<T>>::empty(),
    {
        DBMirror { entries: Vec::new() }
    }

    /// Builds the mirror of a collection from its entries as loaded from the database: one slot
    /// per id up to the largest id (at least one slot), each entry unchanged.
    pub fn from_loaded(loaded: Vec<(u64, T)>) -> (m: Self)
        requires
            forall|i: int| 0 <= i < loaded@.len() ==> (loaded@[i].0 as int) < usize::MAX,
        ensures
            m@.len() >= 1,
            forall|i: int| 0 <= i < loaded@.len() ==> loaded@[i].0 < m@.len(),
            m@.len() == 1 || exists|j: int| 0 <= j < loaded@.len() && loaded@[j].0 == m@.len() - 1,
            forall|id: int| 0 <= id < m@.len() ==> m@[id] == loaded_slot(loaded@, id),
    {
        let ghost orig = loaded@;
        let mut max_id: u64 = 0;
        let mut i: usize = 0;
        while i < loaded.len()
            invariant
                loaded@ == orig,
                i <= orig.len(),
                (max_id as int) < usize::MAX,
                forall|j: int| 0 <= j < i ==> orig[j].0 <= max_id,
                max_id == 0 || exists|j: int| 0 <= j < i && orig[j].0 == max_id,
                forall|j: int| 0 <= j < orig.len() ==> (orig[j].0 as int) < usize::MAX,
            decreases orig.len() - i,
        {
            if loaded[i].0 > max_id {
                max_id = loaded[i].0;
            }
            i = i + 1;
        }
        let n: usize = max_id as usize + 1;
        let mut entries: Vec<Slot<T>> = Vec::new();
        while entries.len() < n
            invariant
                entries@.len() <= n,
                forall|k: int| 0 <= k < entries@.len() ==> entries@[k] is None,
            decreases n - entries@.len(),
        {
            entries.push(None);
        }
        let mut rest = loaded;
        assert forall|id: int| 0 <= id < n implies #[trigger] entries@[id] == loaded_slot(
            orig.subrange(orig.len() as int, orig.len() as int),
            id,
        ) by {
            reveal(loaded_slot);
        }
        // Entries are taken from the back, so a slot keeps the first entry placed in it: the
        // last one loaded with that id.
        while rest.len() > 0
            invariant
                entries@.len() == n,
                n == max_id + 1,
                forall|j: int| 0 <= j < orig.len() ==> orig[j].0 <= max_id,
                rest@ == orig.take(rest@.len() as int),
                rest@.len() <= orig.len(),
                forall|id: int|
                    0 <= id < n ==> #[trigger] entries@[id] == loaded_slot(
                        orig.subrange(rest@.len() as int, orig.len() as int),
                        id,
                    ),
            decreases rest@.len(),
        {
            let ghost r = rest@.len() as int;
            let (id, contents) = rest.pop().unwrap();
            let ghost later = orig.subrange(r, orig.len() as int);
            let ghost later2 = orig.subrange(r - 1, orig.len() as int);
            assert(orig[r - 1] == (id, contents));
            let idx = id as usize;
            if entries[idx].is_none() {
                entries.set(idx, Some((contents, DBStatus::Unchanged)));
            }
            assert(later2 =~= seq![(id, contents)] + later);
            assert forall|k: int| 0 <= k < n implies #[trigger] entries@[k] == loaded_slot(later2, k) by {
                lemma_loaded_slot_prepend((id, contents), later, k);
            }
        }
        assert(orig.subrange(0, orig.len() as int) =~= orig);
        DBMirror { entries }
    }

    /// The number of entries that can be read.
    pub fn count(&self) -> (n: usize)
        ensures
            n == live_count(self@),
    {
        let mut n: usize = 0;
        let mut i: usize = 0;
        while i < self.entries.len()
            invariant
                i <= self@.len(),
                n == live_count(self@.take(i as int)),
                n <= i,
            decreases self@.len() - i,
        {
            assert(self@.take(i as int + 1).drop_last() =~= self@.take(i as int));
            let live = match &self.entries[i] {
                Some((_, status)) => matches!(*status, DBStatus::Unchanged | DBStatus::Edited),
                None => false,
            };
            if live {
                n = n + 1;
            }
            i = i + 1;
        }
        assert(self@.take(self@.len() as int) =~= self@);
        n
    }

    /// The number of slots, free ones and those of entries being deleted included: the id the
    /// next entry gets where no slot is free.
    pub fn slots(&self) -> (n: usize)
        ensures
            n == self@.len(),
    {
        self.entries.len()
    }

    /// Whether the mirror has no slots.
    pub fn is_empty(&self) -> (b: bool)
        ensures
            b == (self@.len() == 0),
    {
        self.entries.len() == 0
    }

    /// The entry with id `id`, unless there is none or it is being deleted.
    pub fn get(&self, id: u64) -> (r: Option<&T>)
        ensures
            match r {
                Some(x) => self.spec_get(id as int) == Some(*x),
                None => self.spec_get(id as int) is None,
            },
    {
        if id >= self.entries.len() as u64 {
            return None;
        }
        match &self.entries[id as usize] {
            Some((contents, status)) => {
                if matches!(*status, DBStatus::Unchanged | DBStatus::Edited) {
                    Some(contents)
                } else {
                    None
                }
            },
            None => None,
        }
    }

    /// The entry with id `id` for changing it, unless there is none or it is being deleted. The
    /// entry is marked as edited.
    pub fn get_mut(&mut self, id: u64) -> (r: Option<&mut T>)
        ensures
            match r {
                None => old(self).spec_get(id as int) is None && final(self)@ == old(self)@,
                Some(x) => old(self).spec_get(id as int) == Some(*x)
                    && final(self)@ == old(self)@.update(id as int, Some((*final(x), DBStatus::Edited))),
            },
    {
        if id >= self.entries.len() as u64 {
            return None;
        }
        let slot = &mut self.entries[id as usize];
        match slot {
            Some((contents, status)) => {
                if matches!(*status, DBStatus::Unchanged | DBStatus::Edited) {
                    *status = DBStatus::Edited;
                    Some(contents)
                } else {
                    None
                }
            },
            None => None,
        }
    }

    /// Whether some entry satisfies `predicate`. Entries being deleted are searched too.
    pub fn any<F: Fn(&T) -> bool>(&self, predicate: F) -> (b: bool)
        requires
            forall|t: &T| #[trigger] predicate.requires((t,)),
        ensures
            b ==> exists|i: int|
                0 <= i < self@.len() && self@[i] is Some && predicate.ensures(
                    (&slot_value(self@[i]),),
                    true,
                ),
            !b ==> forall|i: int|
                0 <= i < self@.len() && self@[i] is Some ==> predicate.ensures(
                    (&slot_value(self@[i]),),
                    false,
                ),
    {
        let mut i: usize = 0;
        while i < self.entries.len()
            invariant
                i <= self@.len(),
                forall|t: &T| #[trigger] predicate.requires((t,)),
                forall|j: int|
                    0 <= j < i && self@[j] is Some ==> predicate.ensures(
                        (&slot_value(self@[j]),),
                        false,
                    ),
            decreases self@.len() - i,
        {
            match &self.entries[i] {
                Some((item, _)) => {
                    if predicate(item) {
                        return true;
                    }
                },
                None => {},
            }
            i = i + 1;
        }
        false
    }

    /// The readable entry of lowest id that satisfies `predicate`; entries being deleted are
    /// skipped.
    pub fn find<F: Fn(&T) -> bool>(&self, predicate: F) -> (r: Option<DBEntry<'_, T>>)
        requires
            forall|t: &T| #[trigger] predicate.requires((t,)),
        ensures
            match r {
                Some(e) => e.id < self@.len() && slot_live(self@[e.id as int]) && *e.contents
                    == slot_value(self@[e.id as int]) && predicate.ensures((e.contents,), true)
                    && forall|j: int|
                    0 <= j < e.id && slot_live(self@[j]) ==> predicate.ensures(
                        (&slot_value(self@[j]),),
                        false,
                    ),
                None => forall|i: int|
                    0 <= i < self@.len() && slot_live(self@[i]) ==> predicate.ensures(
                        (&slot_value(self@[i]),),
                        false,
                    ),
            },
    {
        let mut i: usize = 0;
        while i < self.entries.len()
            invariant
                i <= self@.len(),
                forall|t: &T| #[trigger] predicate.requires((t,)),
                forall|j: int|
                    0 <= j < i && slot_live(self@[j]) ==> predicate.ensures(
                        (&slot_value(self@[j]),),
                        false,
                    ),
            decreases self@.len() - i,
        {
            match &self.entries[i] {
                Some((item, status)) => {
                    if matches!(*status, DBStatus::Unchanged | DBStatus::Edited) && predicate(item) {
                        return Some(DBEntry { id: i as u64, contents: item });
                    }
                },
                None => {},
            }
            i = i + 1;
        }
        None
    }

    /// The ids of all readable entries, in increasing order.
    pub fn live_ids(&self) -> (ids: Vec<u64>)
        ensures
            lists_live(self@, ids@),
    {
        let mut ids: Vec<u64> = Vec::new();
        let mut i: usize = 0;
        while i < self.entries.len()
            invariant
                i <= self@.len(),
                forall|k: int| 0 <= k < ids@.len() ==> ids@[k] < i && slot_live(self@[ids@[k] as int]),
                forall|k: int, l: int| 0 <= k < l < ids@.len() ==> ids@[k] < ids@[l],
                forall|j: int| 0 <= j < i && slot_live(self@[j]) ==> exists|k: int| 0 <= k < ids@.len() && ids@[k] == j,
            decreases self@.len() - i,
        {
            let live = match &self.entries[i] {
                Some((_, status)) => matches!(*status, DBStatus::Unchanged | DBStatus::Edited),
                None => false,
            };
            let ghost before = ids@;
            if live {
                ids.push(i as u64);
                assert(ids@[ids@.len() - 1] == i);
            }
            assert forall|j: int| 0 <= j < i + 1 && slot_live(self@[j]) implies exists|k: int| 0 <= k < ids@.len() && ids@[k] == j by {
                if j < i {
                    let k = choose|k: int| 0 <= k < before.len() && before[k] == j;
                    assert(ids@[k] == j);
                } else {
                    assert(ids@[ids@.len() - 1] == j);
                }
            }
            i = i + 1;
        }
        ids
    }

    /// All readable entries, in increasing order of id.
    pub fn get_all(&self) -> (all: Vec<DBEntry<'_, T>>)
        ensures
            lists_live(self@, all@.map_values(|e: DBEntry<'_, T>| e.id)),
            forall|k: int| 0 <= k < all@.len() ==> Some(*all@[k].contents) == self.spec_get(all@[k].id as int),
    {
        let mut all: Vec<DBEntry<'_, T>> = Vec::new();
        let mut i: usize = 0;
        while i < self.entries.len()
            invariant
                i <= self@.len(),
                forall|k: int| 0 <= k < all@.len() ==> all@[k].id < i && slot_live(self@[all@[k].id as int]),
                forall|k: int| 0 <= k < all@.len() ==> Some(*all@[k].contents) == lookup(self@, all@[k].id as int),
                forall|k: int, l: int| 0 <= k < l < all@.len() ==> all@[k].id < all@[l].id,
                forall|j: int| 0 <= j < i && slot_live(self@[j]) ==> exists|k: int| 0 <= k < all@.len() && all@[k].id == j,
            decreases self@.len() - i,
        {
            let ghost before = all@;
            match &self.entries[i] {
                Some((item, status)) => {
                    if matches!(*status, DBStatus::Unchanged | DBStatus::Edited) {
                        all.push(DBEntry { id: i as u64, contents: item });
                        assert(all@[all@.len() - 1].id == i);
                    }
                },
                None => {},
            }
            assert forall|j: int| 0 <= j < i + 1 && slot_live(self@[j]) implies exists|k: int| 0 <= k < all@.len() && all@[k].id == j by {
                if j < i {
                    let k = choose|k: int| 0 <= k < before.len() && before[k].id == j;
                    assert(all@[k].id == j);
                } else {
                    assert(all@[all@.len() - 1].id == j);
                }
            }
            i = i + 1;
        }
        let ghost ids = all@.map_values(|e: DBEntry<'_, T>| e.id);
        assert forall|i: int| 0 <= i < self@.len() && slot_live(self@[i]) implies exists|k: int| 0 <= k < ids.len() && ids[k] == i by {
            let k = choose|k: int| 0 <= k < all@.len() && all@[k].id == i;
            assert(ids[k] == i);
        }
        all
    }

    /// Adds an entry in the first free slot, or in a new slot at the end, marked as edited, and
    /// returns its id.
    pub fn add(&mut self, thing: T) -> (id: u64)
        requires
            old(self)@.len() < usize::MAX,
        ensures
            added(old(self)@, final(self)@, id as int, thing),
    {
        let mut i: usize = 0;
        while i < self.entries.len()
            invariant
                self@ == old(self)@,
                i <= self@.len(),
                forall|j: int| 0 <= j < i ==> self@[j] is Some,
            decreases self@.len() - i,
        {
            if self.entries[i].is_none() {
                self.entries.set(i, Some((thing, DBStatus::Edited)));
                return i as u64;
            }
            i = i + 1;
        }
        self.entries.push(Some((thing, DBStatus::Edited)));
        (self.entries.len() - 1) as u64
    }

    /// Marks a readable entry as to be deleted; fails where there is none.
    pub fn delete(&mut self, id: u64) -> (r: Result<(), ()>)
        ensures
            r is Ok <==> old(self).spec_get(id as int) is Some,
            r is Ok ==> final(self)@ == old(self)@.update(
                id as int,
                Some((slot_value(old(self)@[id as int]), DBStatus::ToBeDeleted)),
            ),
            r is Err ==> final(self)@ == old(self)@,
    {
        if id >= self.entries.len() as u64 {
            return Err(());
        }
        let slot = &mut self.entries[id as usize];
        match slot {
            Some((_, status)) => {
                if matches!(*status, DBStatus::Unchanged | DBStatus::Edited) {
                    *status = DBStatus::ToBeDeleted;
                    Ok(())
                } else {
                    Err(())
                }
            },
            None => Err(()),
        }
    }

    /// Marks every entry as to be deleted.
    pub fn delete_all(&mut self)
        ensures
            final(self)@ == after_delete_all(old(self)@),
    {
        let ghost s0 = self@;
        let mut i: usize = 0;
        while i < self.entries.len()
            invariant
                i <= self@.len(),
                self@.len() == s0.len(),
                forall|j: int| 0 <= j < i ==> self@[j] == after_delete_all(s0)[j],
                forall|j: int| i <= j < s0.len() ==> self@[j] == s0[j],
            decreases self@.len() - i,
        {
            let slot = &mut self.entries[i];
            match slot {
                Some((_, status)) => {
                    *status = DBStatus::ToBeDeleted;
                },
                None => {},
            }
            i = i + 1;
        }
        assert(self@ =~= after_delete_all(s0));
    }

    /// Copies out every edited entry, in increasing order of id, and marks it unchanged.
    pub fn extract_changes(&mut self) -> (changes: Vec<ClonedDBEntry<T>>) where T: Clone
        ensures
            final(self)@ == after_extract_changes(old(self)@),
            lists_status(old(self)@, changes@.map_values(|c: ClonedDBEntry<T>| c.id), DBStatus::Edited),
            forall|k: int|
                0 <= k < changes@.len() ==> cloned(
                    slot_value(old(self)@[changes@[k].id as int]),
                    #[trigger] changes@[k].contents,
                ),
    {
        let ghost s0 = self@;
        let mut changes: Vec<ClonedDBEntry<T>> = Vec::new();
        let mut i: usize = 0;
        while i < self.entries.len()
            invariant
                i <= self@.len(),
                self@.len() == s0.len(),
                forall|j: int| 0 <= j < i ==> self@[j] == after_extract_changes(s0)[j],
                forall|j: int| i <= j < s0.len() ==> self@[j] == s0[j],
                forall|k: int| 0 <= k < changes@.len() ==> changes@[k].id < i && slot_has(s0[changes@[k].id as int], DBStatus::Edited),
                forall|k: int, l: int| 0 <= k < l < changes@.len() ==> changes@[k].id < changes@[l].id,
                forall|j: int| 0 <= j < i && slot_has(s0[j], DBStatus::Edited) ==> exists|k: int| 0 <= k < changes@.len() && changes@[k].id == j,
                forall|k: int|
                    0 <= k < changes@.len() ==> cloned(
                        slot_value(s0[changes@[k].id as int]),
                        #[trigger] changes@[k].contents,
                    ),
            decreases self@.len() - i,
        {
            let ghost before = changes@;
            let slot = &mut self.entries[i];
            match slot {
                Some((item, status)) => {
                    if matches!(*status, DBStatus::Edited) {
                        let c = item.clone();
                        changes.push(ClonedDBEntry { id: i as u64, contents: c });
                        *status = DBStatus::Unchanged;
                        assert(changes@[changes@.len() - 1].id == i);
                    }
                },
                None => {},
            }
            assert forall|j: int| 0 <= j < i + 1 && slot_has(s0[j], DBStatus::Edited) implies exists|k: int| 0 <= k < changes@.len() && changes@[k].id == j by {
                if j < i {
                    let k = choose|k: int| 0 <= k < before.len() && before[k].id == j;
                    assert(changes@[k].id == j);
                } else {
                    assert(changes@[changes@.len() - 1].id == j);
                }
            }
            i = i + 1;
        }
        assert(self@ =~= after_extract_changes(s0));
        let ghost ids = changes@.map_values(|c: ClonedDBEntry<T>| c.id);
        assert forall|j: int| 0 <= j < s0.len() && slot_has(s0[j], DBStatus::Edited) implies exists|k: int| 0 <= k < ids.len() && ids[k] == j by {
            let k = choose|k: int| 0 <= k < changes@.len() && changes@[k].id == j;
            assert(ids[k] == j);
        }
        changes
    }

    /// Frees the slots of entries being deleted, once their deletion was saved.
    pub fn clear_pending_deletions(&mut self)
        ensures
            final(self)@ == after_clear_pending(old(self)@),
    {
        let ghost s0 = self@;
        let mut i: usize = 0;
        while i < self.entries.len()
            invariant
                i <= self@.len(),
                self@.len() == s0.len(),
                forall|j: int| 0 <= j < i ==> self@[j] == after_clear_pending(s0)[j],
                forall|j: int| i <= j < s0.len() ==> self@[j] == s0[j],
            decreases self@.len() - i,
        {
            let being_deleted = match &self.entries[i] {
                Some((_, status)) => matches!(*status, DBStatus::BeingDeleted),
                None => false,
            };
            if being_deleted {
                self.entries.set(i, None);
            }
            i = i + 1;
        }
        assert(self@ =~= after_clear_pending(s0));
    }

    /// Lists the ids of entries to be deleted, in increasing order, and marks them as being
    /// deleted.
    pub fn extract_deletions(&mut self) -> (ids: Vec<u64>)
        ensures
            final(self)@ == after_extract_deletions(old(self)@),
            lists_status(old(self)@, ids@, DBStatus::ToBeDeleted),
    {
        let ghost s0 = self@;
        let mut ids: Vec<u64> = Vec::new();
        let mut i: usize = 0;
        while i < self.entries.len()
            invariant
                i <= self@.len(),
                self@.len() == s0.len(),
                forall|j: int| 0 <= j < i ==> self@[j] == after_extract_deletions(s0)[j],
                forall|j: int| i <= j < s0.len() ==> self@[j] == s0[j],
                forall|k: int| 0 <= k < ids@.len() ==> ids@[k] < i && slot_has(s0[ids@[k] as int], DBStatus::ToBeDeleted),
                forall|k: int, l: int| 0 <= k < l < ids@.len() ==> ids@[k] < ids@[l],
                forall|j: int| 0 <= j < i && slot_has(s0[j], DBStatus::ToBeDeleted) ==> exists|k: int| 0 <= k < ids@.len() && ids@[k] == j,
            decreases self@.len() - i,
        {
            let ghost before = ids@;
            let slot = &mut self.entries[i];
            match slot {
                Some((_, status)) => {
                    if matches!(*status, DBStatus::ToBeDeleted) {
                        ids.push(i as u64);
                        *status = DBStatus::BeingDeleted;
                        assert(ids@[ids@.len() - 1] == i);
                    }
                },
                None => {},
            }
            assert forall|j: int| 0 <= j < i + 1 && slot_has(s0[j], DBStatus::ToBeDeleted) implies exists|k: int| 0 <= k < ids@.len() && ids@[k] == j by {
                if j < i {
                    let k = choose|k: int| 0 <= k < before.len() && before[k] == j;
                    assert(ids@[k] == j);
                } else {
                    assert(ids@[ids@.len() - 1] == j);
                }
            }
            i = i + 1;
        }
        assert(self@ =~= after_extract_deletions(s0));
        ids
    }
}

} // verus!
