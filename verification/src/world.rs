//! What the game reads from the world around it: the local clock (through chrono) and random
//! draws (through rand). Nothing is promised of these values beyond their ranges.
use crate::config::Config;
use crate::model::{GameDate, Moment, TimeOfDay};
use chrono::{Datelike, Timelike};
use rand::seq::{IteratorRandom, SliceRandom};
use rand::Rng;
use vstd::prelude::*;

verus! {

/// `rand::Rng::random_range` over `0..=max` with the thread-local generator: a number up to
/// `max`.
#[verifier::external_body]
fn random_up_to(max: u64) -> (r: u64)
    ensures
        r <= max,
{
    rand::rng().random_range(0..=max)
}

/// A random index below `n`.
pub(crate) fn random_index(n: usize) -> (i: usize)
    requires
        n > 0,
    ensures
        i < n,
{
    random_up_to((n - 1) as u64) as usize
}

/// A random number between `lo` and `hi`.
pub(crate) fn random_between(lo: i64, hi: i64) -> (r: i64)
    requires
        lo <= hi,
    ensures
        lo <= r <= hi,
{
    let span = (hi as i128 - lo as i128) as u64;
    let r = random_up_to(span);
    (lo as i128 + r as i128) as i64
}

/// `rand::seq::SliceRandom::shuffle` with the thread-local generator: the same elements in some
/// order.
#[verifier::external_body]
pub(crate) fn shuffle<T>(v: &mut Vec<T>)
    ensures
        final(v)@.to_multiset() == old(v)@.to_multiset(),
{
    v.as_mut_slice().shuffle(&mut rand::rng())
}

/// `rand::seq::IteratorRandom::choose_multiple` over `0..n` with the thread-local generator:
/// `amount` distinct numbers below `n`, or all of them where there are fewer.
#[verifier::external_body]
pub(crate) fn choose_below(n: usize, amount: usize) -> (v: Vec<usize>)
    ensures
        v@.len() == if n < amount { n } else { amount },
        forall|k: int| 0 <= k < v@.len() ==> v@[k] < n,
        forall|k: int, l: int| 0 <= k < l < v@.len() ==> v@[k] != v@[l],
{
    (0..n).choose_multiple(&mut rand::rng(), amount)
}

/// The clock as the game reads it: the moment, and the local time of day and date.
pub(crate) struct LocalNow {
    /// milliseconds since the Unix epoch
    pub moment: Moment,
    pub time: TimeOfDay,
    pub date: GameDate,
}

/// `chrono::Local::now`, read as milliseconds since the Unix epoch (`timestamp_millis`), its
/// local time of day (`num_seconds_from_midnight`, below 86400, and `nanosecond`, below
/// 2,000,000,000 as a leap second runs past 1,000,000,000) and its local date (`date_naive`:
/// year, month from 1 to 12 and day from 1 to 31).
#[verifier::external_body]
fn local_now() -> (n: LocalNow)
    ensures
        n.time.secs < 86400,
        n.time.frac < 2_000_000_000,
        1 <= n.date.month <= 12,
        1 <= n.date.day <= 31,
{
    let now = chrono::Local::now();
    let time = now.time();
    let date = now.date_naive();
    LocalNow {
        moment: now.timestamp_millis(),
        time: TimeOfDay { secs: time.num_seconds_from_midnight(), frac: time.nanosecond() },
        date: GameDate { year: date.year(), month: date.month(), day: date.day() },
    }
}

/// The current moment.
pub(crate) fn now_moment() -> (m: Moment) {
    local_now().moment
}

/// The current local time of day.
pub fn local_time_of_day() -> (t: TimeOfDay)
    ensures
        t.secs < 86400,
        t.frac < 2_000_000_000,
{
    local_now().time
}

/// The current local date.
pub(crate) fn local_date() -> (d: GameDate)
    ensures
        1 <= d.month <= 12,
        1 <= d.day <= 31,
{
    local_now().date
}

/// Whether `t` is a time of day that chrono accepts: a second of the day, and a fraction below
/// one second, or below two in the last second of a minute (a leap second).
pub open spec fn is_time_of_day(t: TimeOfDay) -> bool {
    &&& t.secs < 86400
    &&& t.frac < 2_000_000_000
    &&& (t.frac >= 1_000_000_000 ==> t.secs % 60 == 59)
}

/// `chrono::NaiveTime::from_num_seconds_from_midnight_opt`, then
/// `chrono::Local::now().with_time(..)`: the moment of today's local date at time `t`, as
/// milliseconds since the Unix epoch; `None` where `t` is no time of day (the one case stated)
/// or that time does not exist in a single way today (`LocalResult::single`), which rests on the
/// clock and the time zone.
#[verifier::external_body]
pub(crate) fn today_at(t: TimeOfDay) -> (m: Option<Moment>)
    ensures
        !is_time_of_day(t) ==> m is None,
{
    match chrono::NaiveTime::from_num_seconds_from_midnight_opt(t.secs, t.frac) {
        Some(time) => match chrono::Local::now().with_time(time).single() {
            Some(d) => Some(d.timestamp_millis()),
            None => None,
        },
        None => None,
    }
}

/// The moment today at which a game of `config` ends: its end time of day on today's local
/// date (see `today_at`).
pub fn end_time_today(config: &Config) -> (m: Option<Moment>)
    ensures
        !is_time_of_day(config.end_time) ==> m is None,
{
    today_at(config.end_time)
}

} // verus!
