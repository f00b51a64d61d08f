//! What holds of every shutdown, stated over the coordinator's transition
//! function and the watchdog's decision.
use vstd::prelude::*;

use crate::coordinator::{step_spec, Action, Coordinator, Event, Phase};
use crate::watchdog::{deadline_of, watchdog_step_spec, WatchdogStep};

verus! {

/// The coordinator after `c` receives the events `es` in order, and the
/// actions it hands back, one for each event.
pub open spec fn run(c: Coordinator, es: Seq<Event>) -> (Coordinator, Seq<Action>)
    decreases es.len(),
{
    if es.len() == 0 {
        (c, Seq::empty())
    } else {
        let (c1, a) = step_spec(c, es[0]);
        let (c2, rest) = run(c1, es.drop_first());
        (c2, seq![a] + rest)
    }
}

/// The close outcomes `outcomes` as events.
pub open spec fn closes_of(outcomes: Seq<bool>) -> Seq<Event> {
    Seq::new(outcomes.len(), |i: int| Event::Closed { ok: outcomes[i] })
}

/// How many close requests succeeded among `outcomes`.
pub open spec fn successes(outcomes: Seq<bool>) -> nat
    decreases outcomes.len(),
{
    if outcomes.len() == 0 {
        0
    } else {
        (if outcomes[0] { 1nat } else { 0nat }) + successes(outcomes.drop_first())
    }
}

/// Close requests for the windows `from` up to `to`, in order.
pub open spec fn close_requests(from: int, to: int) -> Seq<Action> {
    Seq::new((to - from) as nat, |j: int| Action::CloseWindow { index: (from + j) as usize })
}

/// Once a shutdown is under way, no event moves its deadline, its issue
/// time or its grace period: the watchdog armed at the trigger stays valid.
pub proof fn lemma_deadline_fixed(c: Coordinator, es: Seq<Event>)
    requires
        c.wf(),
        c.phase != Phase::Idle,
    ensures
        run(c, es).0.deadline == c.deadline,
        run(c, es).0.issued_at == c.issued_at,
        run(c, es).0.grace_ms == c.grace_ms,
        run(c, es).0.phase != Phase::Idle,
    decreases es.len(),
{
    if es.len() > 0 {
        let (c1, a) = step_spec(c, es[0]);
        lemma_step_keeps_wf(c, es[0]);
        lemma_deadline_fixed(c1, es.drop_first());
    }
}

/// A step keeps the coordinator well formed.
pub proof fn lemma_step_keeps_wf(c: Coordinator, e: Event)
    requires
        c.wf(),
    ensures
        step_spec(c, e).0.wf(),
{
}

/// Bounded termination: a shutdown triggered at `now0` arms a watchdog
/// whose deadline is at most the grace period away; from that deadline on
/// the watchdog aborts, and before it the watchdog never sleeps past it.
/// This holds whatever events follow, including none at all (a close
/// request that never returns).
pub proof fn lemma_bounded_termination(
    c: Coordinator,
    now0: u64,
    windows: usize,
    es: Seq<Event>,
    now: u64,
)
    requires
        c.wf(),
        c.phase == Phase::Idle,
    ensures
        ({
            let (c1, a) = step_spec(c, Event::Trigger { now: now0, windows });
            let d = run(c1, es).0.deadline;
            &&& a == Action::ArmWatchdog { deadline: d }
            &&& now0 <= d <= now0 + c.grace_ms
            &&& now >= d ==> watchdog_step_spec(d, now) == WatchdogStep::Abort
            &&& now < d ==> watchdog_step_spec(d, now) == (WatchdogStep::Wait {
                ms: (d - now) as u64,
            })
        }),
{
    let (c1, a) = step_spec(c, Event::Trigger { now: now0, windows });
    lemma_deadline_fixed(c1, es);
}

/// Idempotence: a trigger that arrives while a shutdown is under way
/// changes nothing and asks the host for nothing.
pub proof fn lemma_trigger_idempotent(c: Coordinator, now: u64, windows: usize)
    requires
        c.wf(),
        c.phase != Phase::Idle,
    ensures
        step_spec(c, Event::Trigger { now, windows }) == (c, Action::Ignore),
{
}

/// Two triggers in a row produce the actions of one: the watchdog is armed
/// once, for the first trigger's deadline.
pub proof fn lemma_double_trigger(c: Coordinator, t1: u64, n1: usize, t2: u64, n2: usize)
    requires
        c.wf(),
        c.phase == Phase::Idle,
    ensures
        run(c, seq![Event::Trigger { now: t1, windows: n1 }, Event::Trigger { now: t2, windows: n2 }])
            == (step_spec(c, Event::Trigger { now: t1, windows: n1 }).0, seq![
            Action::ArmWatchdog { deadline: deadline_of(t1, c.grace_ms) },
            Action::Ignore,
        ]),
{
    let es = seq![Event::Trigger { now: t1, windows: n1 }, Event::Trigger { now: t2, windows: n2 }];
    let c1 = step_spec(c, es[0]).0;
    let es1 = es.drop_first();
    assert(es1[0] == Event::Trigger { now: t2, windows: n2 });
    assert(es1.drop_first() =~= Seq::<Event>::empty());
    assert(step_spec(c1, es1[0]) == (c1, Action::Ignore));
    assert(run(c1, es1.drop_first()) == (c1, Seq::<Action>::empty()));
    assert(run(c1, es1).1 =~= seq![Action::Ignore]);
    assert(run(c, es).1 =~= seq![
        Action::ArmWatchdog { deadline: deadline_of(t1, c.grace_ms) },
        Action::Ignore,
    ]);
}

/// While closing window `index` of `total`, whatever the outcomes of the
/// remaining close requests, every later window gets its request, then the
/// runtime is asked to exit.
pub proof fn lemma_closing_run(c: Coordinator, outcomes: Seq<bool>)
    requires
        c.wf(),
        c.phase is Closing,
        outcomes.len() == c.phase->Closing_total - c.phase->Closing_index,
    ensures
        ({
            let index = c.phase->Closing_index as int;
            let total = c.phase->Closing_total as int;
            let (c2, acts) = run(c, closes_of(outcomes));
            &&& acts == close_requests(index + 1, total) + seq![Action::RequestExit]
            &&& c2.phase == Phase::Exiting
            &&& c2.windows_closed == c.windows_closed + successes(outcomes)
            &&& c2.windows_closed + c2.windows_failed == total
            &&& c2.deadline == c.deadline
        }),
    decreases outcomes.len(),
{
    let index = c.phase->Closing_index as int;
    let total = c.phase->Closing_total as int;
    let es = closes_of(outcomes);
    let (c1, a) = step_spec(c, es[0]);
    assert(es.drop_first() =~= closes_of(outcomes.drop_first()));
    if index + 1 < total {
        lemma_closing_run(c1, outcomes.drop_first());
        assert(seq![a] + (close_requests(index + 2, total) + seq![Action::RequestExit])
            =~= close_requests(index + 1, total) + seq![Action::RequestExit]);
    } else {
        assert(outcomes.drop_first().len() == 0);
        assert(es.drop_first() =~= Seq::<Event>::empty());
        assert(successes(outcomes.drop_first()) == 0);
        assert(close_requests(index + 1, total) =~= Seq::<Action>::empty());
        assert(run(c, es).1 =~= seq![Action::RequestExit]);
    }
}

/// Best-effort window closing: with `n` windows open, whatever each close
/// request returns, every window of the snapshot receives a close request,
/// in order, before cooperative exit is requested, and every window is
/// counted as closed or failed.
pub proof fn lemma_best_effort_closing(c: Coordinator, now: u64, outcomes: Seq<bool>)
    requires
        c.wf(),
        c.phase == Phase::Idle,
        outcomes.len() <= usize::MAX,
    ensures
        ({
            let n = outcomes.len() as usize;
            let es = seq![Event::Trigger { now, windows: n }, Event::Armed] + closes_of(outcomes);
            let (c2, acts) = run(c, es);
            &&& acts == seq![Action::ArmWatchdog { deadline: deadline_of(now, c.grace_ms) }]
                + close_requests(0, n as int) + seq![Action::RequestExit]
            &&& c2.phase == Phase::Exiting
            &&& c2.windows_closed == successes(outcomes)
            &&& c2.windows_closed + c2.windows_failed == n
        }),
{
    let n = outcomes.len() as usize;
    let es = seq![Event::Trigger { now, windows: n }, Event::Armed] + closes_of(outcomes);
    assert(es[0] == Event::Trigger { now, windows: n });
    let (c1, a1) = step_spec(c, es[0]);
    let es1 = es.drop_first();
    assert(es1[0] == Event::Armed);
    let (c2, a2) = step_spec(c1, es1[0]);
    let es2 = es1.drop_first();
    assert(es2 =~= closes_of(outcomes));
    assert(run(c, es).1 == seq![a1] + run(c1, es1).1);
    assert(run(c1, es1).1 == seq![a2] + run(c2, es2).1);
    if n == 0 {
        assert(es2 =~= Seq::<Event>::empty());
        assert(successes(outcomes) == 0);
        assert(close_requests(0, 0) =~= Seq::<Action>::empty());
        assert(run(c1, es1).1 =~= seq![Action::RequestExit]);
        assert(run(c, es).1 =~= seq![Action::ArmWatchdog { deadline: deadline_of(now, c.grace_ms) }]
            + close_requests(0, n as int) + seq![Action::RequestExit]);
    } else {
        lemma_closing_run(c2, outcomes);
        assert(seq![a2] + (close_requests(1, n as int) + seq![Action::RequestExit])
            =~= close_requests(0, n as int) + seq![Action::RequestExit]);
        assert(run(c, es).1 =~= seq![Action::ArmWatchdog { deadline: deadline_of(now, c.grace_ms) }]
            + close_requests(0, n as int) + seq![Action::RequestExit]);
    }
}

/// No premature termination: before the grace period since the trigger has
/// elapsed, the watchdog only sleeps, and never past the end of that period.
pub proof fn lemma_no_premature_abort(issued_at: u64, grace: u64, now: u64)
    requires
        issued_at + grace <= u64::MAX,
        now < issued_at + grace,
    ensures
        watchdog_step_spec(deadline_of(issued_at, grace), now) == (WatchdogStep::Wait {
            ms: (issued_at + grace - now) as u64,
        }),
{
}

} // verus!
