use shutdown_coordinator::coordinator::{Action, Coordinator, Event, Phase};
use shutdown_coordinator::watchdog::{deadline_after, watchdog_step, WatchdogStep, GRACE_PERIOD_MS};

fn drive(c: &mut Coordinator, events: &[Event]) -> Vec<Action> {
    events.iter().map(|e| c.step(*e)).collect()
}

#[test]
fn no_windows_exits_at_once() {
    let mut c = Coordinator::standard();
    let acts = drive(&mut c, &[Event::Trigger { now: 1_000, windows: 0 }, Event::Armed]);
    assert_eq!(acts, vec![Action::ArmWatchdog { deadline: 1_200 }, Action::RequestExit]);
    assert_eq!(c.phase, Phase::Exiting);
    assert_eq!(watchdog_step(c.deadline, 1_000), WatchdogStep::Wait { ms: 200 });
}

#[test]
fn three_windows_close_then_exit() {
    let mut c = Coordinator::standard();
    let acts = drive(
        &mut c,
        &[
            Event::Trigger { now: 5_000, windows: 3 },
            Event::Armed,
            Event::Closed { ok: true },
            Event::Closed { ok: true },
            Event::Closed { ok: true },
        ],
    );
    assert_eq!(
        acts,
        vec![
            Action::ArmWatchdog { deadline: 5_200 },
            Action::CloseWindow { index: 0 },
            Action::CloseWindow { index: 1 },
            Action::CloseWindow { index: 2 },
            Action::RequestExit,
        ]
    );
    assert_eq!(c.windows_closed, 3);
    assert_eq!(c.windows_failed, 0);
    assert_eq!(watchdog_step(c.deadline, 5_010), WatchdogStep::Wait { ms: 190 });
    assert_eq!(watchdog_step(c.deadline, 5_050), WatchdogStep::Wait { ms: 150 });
}

#[test]
fn hung_close_is_aborted_at_the_deadline() {
    let mut c = Coordinator::standard();
    let acts = drive(&mut c, &[Event::Trigger { now: 0, windows: 1 }, Event::Armed]);
    assert_eq!(acts, vec![Action::ArmWatchdog { deadline: 200 }, Action::CloseWindow { index: 0 }]);
    assert_eq!(c.phase, Phase::Closing { index: 0, total: 1 });
    assert_eq!(watchdog_step(c.deadline, 150), WatchdogStep::Wait { ms: 50 });
    assert_eq!(watchdog_step(c.deadline, 199), WatchdogStep::Wait { ms: 1 });
    assert_eq!(watchdog_step(c.deadline, 200), WatchdogStep::Abort);
    assert_eq!(watchdog_step(c.deadline, 10_000), WatchdogStep::Abort);
}

#[test]
fn second_trigger_is_ignored() {
    let mut c = Coordinator::standard();
    let first = c.step(Event::Trigger { now: 100, windows: 2 });
    let before = c;
    let second = c.step(Event::Trigger { now: 105, windows: 4 });
    assert_eq!(first, Action::ArmWatchdog { deadline: 300 });
    assert_eq!(second, Action::Ignore);
    assert_eq!(c, before);
    assert_eq!(c.deadline, 300);
}

#[test]
fn trigger_during_closing_and_exit_is_ignored() {
    let mut c = Coordinator::new(50);
    drive(&mut c, &[Event::Trigger { now: 10, windows: 1 }, Event::Armed]);
    assert_eq!(c.step(Event::Trigger { now: 20, windows: 1 }), Action::Ignore);
    assert_eq!(c.step(Event::Closed { ok: true }), Action::RequestExit);
    assert_eq!(c.step(Event::Trigger { now: 30, windows: 1 }), Action::Ignore);
    assert_eq!(c.phase, Phase::Exiting);
    assert_eq!(c.deadline, 60);
}

#[test]
fn failed_close_does_not_stop_the_others() {
    let mut c = Coordinator::standard();
    let acts = drive(
        &mut c,
        &[
            Event::Trigger { now: 0, windows: 3 },
            Event::Armed,
            Event::Closed { ok: true },
            Event::Closed { ok: false },
            Event::Closed { ok: true },
        ],
    );
    assert_eq!(
        acts,
        vec![
            Action::ArmWatchdog { deadline: 200 },
            Action::CloseWindow { index: 0 },
            Action::CloseWindow { index: 1 },
            Action::CloseWindow { index: 2 },
            Action::RequestExit,
        ]
    );
    assert_eq!(c.windows_closed, 2);
    assert_eq!(c.windows_failed, 1);
}

#[test]
fn every_close_failing_still_requests_exit() {
    let mut c = Coordinator::new(10);
    let acts = drive(
        &mut c,
        &[Event::Trigger { now: 0, windows: 2 }, Event::Armed, Event::Closed { ok: false }, Event::Closed { ok: false }],
    );
    assert_eq!(acts[3], Action::RequestExit);
    assert_eq!(c.windows_closed, 0);
    assert_eq!(c.windows_failed, 2);
}

#[test]
fn no_abort_before_the_grace_period() {
    for now in 0..GRACE_PERIOD_MS {
        assert_eq!(watchdog_step(GRACE_PERIOD_MS, now), WatchdogStep::Wait { ms: GRACE_PERIOD_MS - now });
    }
    assert_eq!(watchdog_step(GRACE_PERIOD_MS, GRACE_PERIOD_MS), WatchdogStep::Abort);
}

#[test]
fn deadline_is_issue_time_plus_grace() {
    assert_eq!(deadline_after(100, 200), 300);
    assert_eq!(deadline_after(0, 0), 0);
    assert_eq!(deadline_after(u64::MAX - 5, 200), u64::MAX);
}

#[test]
fn events_out_of_order_are_ignored() {
    let mut c = Coordinator::standard();
    assert_eq!(c.step(Event::Armed), Action::Ignore);
    assert_eq!(c.step(Event::Closed { ok: true }), Action::Ignore);
    assert_eq!(c.phase, Phase::Idle);
    c.step(Event::Trigger { now: 0, windows: 2 });
    assert_eq!(c.step(Event::Closed { ok: true }), Action::Ignore);
    assert_eq!(c.step(Event::Armed), Action::CloseWindow { index: 0 });
    assert_eq!(c.step(Event::Armed), Action::Ignore);
    assert_eq!(c.windows_closed, 0);
}

#[test]
fn new_coordinator_is_idle() {
    let c = Coordinator::new(75);
    assert_eq!(c.phase, Phase::Idle);
    assert_eq!(c.grace_ms, 75);
    assert_eq!(Coordinator::standard().grace_ms, GRACE_PERIOD_MS);
}
