use truinlag::runtime::{InternEngineCommand, RuntimeRequest};
use truinlag::timer::TimerTracker;

#[test]
fn ids_count_up_from_one() {
    let mut t = TimerTracker::new();
    assert_eq!(t.current_id, 0);
    let (_, a) = t.alarm(1000, InternEngineCommand::AutoSave);
    let (_, b) = t.alarm(2000, InternEngineCommand::AutoSave);
    assert_eq!(a.id, 1);
    assert_eq!(b.id, 2);
    assert_ne!(a.id, b.id);
}

#[test]
fn ids_wrap_at_the_end() {
    let mut t = TimerTracker { current_id: u64::MAX };
    let (_, h) = t.alarm(5, InternEngineCommand::AutoSave);
    assert_eq!(h.id, 0);
    assert_eq!(t.current_id, 0);
}

#[test]
fn an_alarm_asks_for_itself() {
    let mut t = TimerTracker::new();
    let (r, h) = t.alarm(42, InternEngineCommand::AutoSave);
    assert_eq!(h.end_time, 42);
    assert!(matches!(r, RuntimeRequest::CreateAlarm { time: 42, id: 1, payload: InternEngineCommand::AutoSave }));
    assert!(matches!(h.cancel_request(), RuntimeRequest::CancelTimer(1)));
    assert!(matches!(h.create_request(), RuntimeRequest::CreateAlarm { time: 42, id: 1, .. }));
}

#[test]
fn a_timer_ends_after_its_duration() {
    let mut t = TimerTracker::new();
    let (_, h) = t.timer(900_000, InternEngineCommand::AutoSave, 1_000);
    assert_eq!(h.end_time, 901_000);
}

#[test]
fn a_timer_end_stays_within_the_range_of_moments() {
    let mut t = TimerTracker::new();
    let (_, h) = t.timer(10, InternEngineCommand::AutoSave, i64::MAX - 5);
    assert_eq!(h.end_time, i64::MAX);
    let (_, h) = t.timer(-10, InternEngineCommand::AutoSave, i64::MIN + 5);
    assert_eq!(h.end_time, i64::MIN);
}

#[test]
fn the_default_hook_stands_for_no_timer() {
    let h = truinlag::timer::TimerHook::default();
    assert_eq!(h.id, u64::MAX);
    match h.payload {
        InternEngineCommand::Command(c) => {
            assert!(c.session.is_none());
            assert!(matches!(c.action, truinlag::commands::EngineAction::Ping(None)));
        }
        other => panic!("unexpected {:?}", other),
    }
}

#[test]
fn the_kth_timer_gets_id_k() {
    let mut t = TimerTracker::new();
    let mut ids = Vec::new();
    for k in 1..=5u64 {
        let (r, h) = t.alarm(k as i64 * 1000, InternEngineCommand::AutoSave);
        assert_eq!(h.id, k);
        assert!(matches!(r, RuntimeRequest::CreateAlarm { id, .. } if id == k));
        ids.push(h.id);
    }
    let (_, h) = t.timer(10, InternEngineCommand::AutoSave, 0);
    assert_eq!(h.id, 6);
    ids.push(h.id);
    let mut sorted = ids.clone();
    sorted.dedup();
    assert_eq!(sorted.len(), ids.len());
}
