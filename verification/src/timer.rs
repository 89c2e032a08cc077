//! Timers: each has a unique id so that it can be cancelled.
use crate::commands::{EngineAction, EngineCommand};
use crate::model::Moment;
use crate::world::now_moment;
use crate::runtime::{InternEngineCommand, RuntimeRequest};
use vstd::prelude::*;

verus! {

/// A timer that should currently be running.
#[derive(Debug, Clone)]
pub struct TimerHook {
    pub payload: InternEngineCommand,
    pub end_time: Moment,
    pub id: u64,
}

impl TimerHook {
    /// The request that cancels the timer.
    pub fn cancel_request(&self) -> (r: RuntimeRequest)
        ensures
            r == RuntimeRequest::CancelTimer(self.id),
    {
        RuntimeRequest::CancelTimer(self.id)
    }

    /// The request that starts the timer as an alarm at its end time.
    pub fn create_request(&self) -> (r: RuntimeRequest)
        ensures
            r matches RuntimeRequest::CreateAlarm { time, payload, id } && time == self.end_time
                && id == self.id && cloned(self.payload, payload),
    {
        RuntimeRequest::CreateAlarm {
            time: self.end_time,
            payload: self.payload.clone(),
            id: self.id,
        }
    }
}

impl Default for TimerHook {
    /// A hook that stands for no timer: a ping without a session, due now, with the largest id.
    fn default() -> (h: TimerHook)
        ensures
            h.payload == InternEngineCommand::Command(
                Box::new(EngineCommand { session: None, action: EngineAction::Ping(None) }),
            ),
            h.id == u64::MAX,
    {
        TimerHook {
            payload: InternEngineCommand::Command(
                Box::new(EngineCommand { session: None, action: EngineAction::Ping(None) }),
            ),
            end_time: now_moment(),
            id: u64::MAX,
        }
    }
}

/// Hands out timer ids: a counter that is incremented (wrapping) for every timer.
#[derive(Debug)]
pub struct TimerTracker {
    pub current_id: u64,
}

/// The id after `id`, wrapping at the end of `u64`.
pub open spec fn next_timer_id(id: u64) -> u64 {
    if id == u64::MAX {
        0
    } else {
        (id + 1) as u64
    }
}

impl TimerTracker {
    /// A tracker that has handed out no id yet.
    pub fn new() -> (t: TimerTracker)
        ensures
            t.current_id == 0,
    {
        TimerTracker { current_id: 0 }
    }

    /// An alarm at `time` with a fresh id: the request that creates it and the hook that
    /// represents it.
    pub fn alarm(&mut self, time: Moment, payload: InternEngineCommand) -> (r: (
        RuntimeRequest,
        TimerHook,
    ))
        ensures
            final(self).current_id == next_timer_id(old(self).current_id),
            r.1 == (TimerHook { payload, end_time: time, id: final(self).current_id }),
            r.0 matches RuntimeRequest::CreateAlarm { time: t, payload: p, id }
                && t == time && id == final(self).current_id && cloned(payload, p),
    {
        self.current_id = self.current_id.wrapping_add(1);
        (
            RuntimeRequest::CreateAlarm {
                time,
                payload: payload.clone(),
                id: self.current_id,
            },
            TimerHook { payload, end_time: time, id: self.current_id },
        )
    }

    /// A timer that ends `duration` milliseconds after `now` (at the end of the range of moments
    /// where that lies beyond it).
    pub fn timer(&mut self, duration: i64, payload: InternEngineCommand, now: Moment) -> (r: (
        RuntimeRequest,
        TimerHook,
    ))
        ensures
            final(self).current_id == next_timer_id(old(self).current_id),
            r.1 == (TimerHook { payload, end_time: moment_after(now, duration), id: final(self).current_id }),
            r.0 matches RuntimeRequest::CreateAlarm { time: t, payload: p, id }
                && t == moment_after(now, duration) && id == final(self).current_id && cloned(payload, p),
    {
        let end = match now.checked_add(duration) {
            Some(t) => t,
            None => if duration > 0 { i64::MAX } else { i64::MIN },
        };
        self.alarm(end, payload)
    }
}

/// The moment `duration` milliseconds after `now`, kept within the range of moments.
pub open spec fn moment_after(now: Moment, duration: i64) -> Moment {
    if now + duration > i64::MAX {
        i64::MAX
    } else if now + duration < i64::MIN {
        i64::MIN
    } else {
        (now + duration) as i64
    }
}

/// The id that the `k`-th timer or alarm gets on a tracker whose last id was `start`.
pub open spec fn id_after(start: u64, k: nat) -> u64
    decreases k,
{
    if k == 0 {
        start
    } else {
        next_timer_id(id_after(start, (k - 1) as nat))
    }
}

proof fn lemma_ids_count_up(k: nat)
    requires
        k <= u64::MAX,
    ensures
        id_after(0, k) == k,
    decreases k,
{
    if k > 0 {
        lemma_ids_count_up((k - 1) as nat);
    }
}

/// On a new tracker (last id 0) the `k`-th timer or alarm gets the id `k`, so no two of the
/// first `u64::MAX` share an id.
pub proof fn law_timer_ids_count_up(k: nat, l: nat)
    requires
        k <= u64::MAX,
        l <= u64::MAX,
        k != l,
    ensures
        id_after(0, k) == k,
        id_after(0, k) != id_after(0, l),
{
    lemma_ids_count_up(k);
    lemma_ids_count_up(l);
}

/// Two timers created one after the other get different ids.
pub proof fn law_fresh_timer_ids(id: u64)
    ensures
        next_timer_id(id) != id,
        next_timer_id(next_timer_id(id)) != next_timer_id(id),
{
}

} // verus!
