//! How events, periods and open challenges compare: events by the time of day they happened,
//! periods by the time they ended, open challenges by their title, and each by that alone.
use crate::challenge::InOpenChallenge;
use crate::model::Event;
use crate::team::Period;
use core::cmp::Ordering;
use vstd::prelude::*;

verus! {

impl PartialEq for Event {
    fn eq(&self, other: &Self) -> (r: bool) {
        let a = self.time();
        let b = other.time();
        a.secs == b.secs && a.frac == b.frac
    }
}

impl Eq for Event {

}

impl vstd::std_specs::cmp::PartialEqSpecImpl for Event {
    open spec fn obeys_eq_spec() -> bool {
        true
    }

    open spec fn eq_spec(&self, other: &Self) -> bool {
        self.spec_time() == other.spec_time()
    }
}

impl PartialOrd for Event {
    fn partial_cmp(&self, other: &Self) -> (r: Option<Ordering>) {
        let a = self.time();
        let b = other.time();
        if a.is_before(&b) {
            Some(Ordering::Less)
        } else if b.is_before(&a) {
            Some(Ordering::Greater)
        } else {
            Some(Ordering::Equal)
        }
    }
}

impl vstd::std_specs::cmp::PartialOrdSpecImpl for Event {
    open spec fn obeys_partial_cmp_spec() -> bool {
        true
    }

    open spec fn partial_cmp_spec(&self, other: &Self) -> Option<Ordering> {
        if self.spec_time().before(other.spec_time()) {
            Some(Ordering::Less)
        } else if other.spec_time().before(self.spec_time()) {
            Some(Ordering::Greater)
        } else {
            Some(Ordering::Equal)
        }
    }
}

impl PartialEq for Period {
    fn eq(&self, other: &Self) -> (r: bool) {
        self.end_time == other.end_time
    }
}

impl Eq for Period {

}

impl vstd::std_specs::cmp::PartialEqSpecImpl for Period {
    open spec fn obeys_eq_spec() -> bool {
        true
    }

    open spec fn eq_spec(&self, other: &Self) -> bool {
        self.end_time == other.end_time
    }
}

impl PartialOrd for Period {
    fn partial_cmp(&self, other: &Self) -> (r: Option<Ordering>) {
        if self.end_time.is_before(&other.end_time) {
            Some(Ordering::Less)
        } else if other.end_time.is_before(&self.end_time) {
            Some(Ordering::Greater)
        } else {
            Some(Ordering::Equal)
        }
    }
}

impl vstd::std_specs::cmp::PartialOrdSpecImpl for Period {
    open spec fn obeys_partial_cmp_spec() -> bool {
        true
    }

    open spec fn partial_cmp_spec(&self, other: &Self) -> Option<Ordering> {
        if self.end_time.before(other.end_time) {
            Some(Ordering::Less)
        } else if other.end_time.before(self.end_time) {
            Some(Ordering::Greater)
        } else {
            Some(Ordering::Equal)
        }
    }
}

impl PartialEq for InOpenChallenge {
    fn eq(&self, other: &Self) -> (r: bool) {
        self.title == other.title
    }
}

impl vstd::std_specs::cmp::PartialEqSpecImpl for InOpenChallenge {
    open spec fn obeys_eq_spec() -> bool {
        true
    }

    open spec fn eq_spec(&self, other: &Self) -> bool {
        self.title@ == other.title@
    }
}

} // verus!
