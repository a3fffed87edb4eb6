//! Laws of the timer state machine, stated over its transition functions.
//!
//! `TimerEngine::start_with`, `stop_at` and `tick_at` are proved to follow
//! `start_step`, `stop_step` and `tick_step` exactly (and `start`, `stop`,
//! `tick` for some identifier and time), so each law holds of the engine's
//! calls.
use vstd::prelude::*;
use crate::timer::{
    duration_ok, ended, label_ok, start_step, stop_step, tick_step, trimmed, EngineView,
    ErrorView, EventView, Origin, SessionStatus, SessionView, TickOutcome,
};

verus! {

/// Inputs that pass validation.
pub open spec fn valid_start(minutes: u32, label: Seq<char>) -> bool {
    label_ok(trimmed(label)) && duration_ok(minutes)
}

/// A valid start on an idle engine succeeds and leaves it running; every
/// valid start after it fails with `AlreadyRunning` and changes nothing.
pub proof fn lemma_start_exclusive(
    e: EngineView,
    m1: u32,
    l1: Seq<char>,
    o1: Origin,
    id1: Seq<char>,
    now1: Seq<char>,
    m2: u32,
    l2: Seq<char>,
    o2: Origin,
    id2: Seq<char>,
    now2: Seq<char>,
)
    requires
        e.wf(),
        !e.is_running(),
        valid_start(m1, l1),
        valid_start(m2, l2),
    ensures
        start_step(e, m1, l1, o1, id1, now1).1 is Ok,
        start_step(e, m1, l1, o1, id1, now1).0.is_running(),
        start_step(e, m1, l1, o1, id1, now1).0.wf(),
        start_step(start_step(e, m1, l1, o1, id1, now1).0, m2, l2, o2, id2, now2) == (
            start_step(e, m1, l1, o1, id1, now1).0,
            Err::<SessionView, ErrorView>(ErrorView::AlreadyRunning),
        ),
{
}

/// While a session runs, every valid start fails with `AlreadyRunning` and
/// changes nothing.
pub proof fn lemma_running_refuses_start(
    e: EngineView,
    m: u32,
    l: Seq<char>,
    o: Origin,
    id: Seq<char>,
    now: Seq<char>,
)
    requires
        e.is_running(),
        valid_start(m, l),
    ensures
        start_step(e, m, l, o, id, now) == (e, Err::<SessionView, ErrorView>(
            ErrorView::AlreadyRunning,
        )),
{
}

/// A session stays running until it is stopped or its countdown finishes:
/// a tick that does not finish it leaves it active and unchanged.
pub proof fn lemma_running_until_end(e: EngineView, token: u64, now: Seq<char>)
    requires
        e.wf(),
        e.is_running(),
    ensures
        tick_step(e, token, now).1 != TickOutcome::Finished ==> tick_step(e, token, now).0.active
            == e.active,
{
}

/// Every transition keeps the engine well formed. A session only leaves
/// `Running`, for `Stopped` (stop) or `Completed` (tick); `ended_at` is set
/// exactly when it is no longer running; and identity, label, duration,
/// start and origin never change.
pub proof fn lemma_session_lifecycle(
    e: EngineView,
    m: u32,
    l: Seq<char>,
    o: Origin,
    id: Seq<char>,
    token: u64,
    now: Seq<char>,
)
    requires
        e.wf(),
    ensures
        start_step(e, m, l, o, id, now).0.wf(),
        stop_step(e, now).0.wf(),
        tick_step(e, token, now).0.wf(),
        start_step(e, m, l, o, id, now).1 matches Ok(s) ==> s.status == SessionStatus::Running
            && s.end_matches_status(),
        stop_step(e, now).1 matches Ok(f) ==> {
            &&& e.active matches Some(s)
            &&& s.may_become(f)
            &&& f.status == SessionStatus::Stopped
            &&& f.end_matches_status()
        },
        tick_step(e, token, now).0.active matches Some(s2) ==> e.active == Some(s2),
        tick_step(e, token, now).1 == TickOutcome::Finished ==> {
            &&& e.active matches Some(s)
            &&& tick_step(e, token, now).0.log.last() == EventView::Completed {
                session: ended(s, SessionStatus::Completed, now),
            }
            &&& s.may_become(ended(s, SessionStatus::Completed, now))
            &&& ended(s, SessionStatus::Completed, now).end_matches_status()
        },
{
}

/// Stopping an idle engine fails with `NotRunning` and changes nothing.
pub proof fn lemma_stop_idle(e: EngineView, now: Seq<char>)
    requires
        !e.is_running(),
    ensures
        stop_step(e, now) == (e, Err::<SessionView, ErrorView>(ErrorView::NotRunning)),
{
}


/// One caller's start request.
pub struct StartRequest {
    pub minutes: u32,
    pub label: Seq<char>,
    pub origin: Origin,
    pub id: Seq<char>,
    pub now: Seq<char>,
}

/// The starts of `reqs` served one after another, in that order, as the
/// engine's critical section serialises them; with the result of each.
pub open spec fn run_starts(e: EngineView, reqs: Seq<StartRequest>) -> (
    EngineView,
    Seq<Result<SessionView, ErrorView>>,
)
    decreases reqs.len(),
{
    if reqs.len() == 0 {
        (e, Seq::empty())
    } else {
        let (e1, rs) = run_starts(e, reqs.drop_last());
        let q = reqs.last();
        let (e2, r) = start_step(e1, q.minutes, q.label, q.origin, q.id, q.now);
        (e2, rs.push(r))
    }
}

/// Valid starts from any number of callers against an idle engine, served
/// in any order: exactly the first succeeds, every other one fails with
/// `AlreadyRunning`, and the engine is left running.
pub proof fn lemma_concurrent_starts(e: EngineView, reqs: Seq<StartRequest>)
    requires
        e.wf(),
        !e.is_running(),
        reqs.len() >= 1,
        forall|i: int| 0 <= i < reqs.len() ==> valid_start(#[trigger] reqs[i].minutes, reqs[i].label),
    ensures
        run_starts(e, reqs).1.len() == reqs.len(),
        run_starts(e, reqs).1[0] is Ok,
        forall|i: int|
            0 < i < reqs.len() ==> #[trigger] run_starts(e, reqs).1[i] == Err::<
                SessionView,
                ErrorView,
            >(ErrorView::AlreadyRunning),
        run_starts(e, reqs).0.is_running(),
        run_starts(e, reqs).0.wf(),
    decreases reqs.len(),
{
    let q = reqs.last();
    assert(valid_start(reqs[reqs.len() - 1].minutes, reqs[reqs.len() - 1].label));
    if reqs.len() == 1 {
        assert(reqs.drop_last().len() == 0);
        assert(run_starts(e, reqs.drop_last()) == (e, Seq::<Result<SessionView, ErrorView>>::empty()));
    } else {
        let pre = reqs.drop_last();
        assert forall|i: int| 0 <= i < pre.len() implies valid_start(
            #[trigger] pre[i].minutes,
            pre[i].label,
        ) by {
            assert(pre[i] == reqs[i]);
        }
        lemma_concurrent_starts(e, pre);
        let (e1, rs) = run_starts(e, pre);
        lemma_running_refuses_start(e1, q.minutes, q.label, q.origin, q.id, q.now);
        let out = run_starts(e, reqs).1;
        assert(out == rs.push(Err::<SessionView, ErrorView>(ErrorView::AlreadyRunning)));
        assert forall|i: int| 0 < i < reqs.len() implies #[trigger] out[i] == Err::<
            SessionView,
            ErrorView,
        >(ErrorView::AlreadyRunning) by {
            if i < pre.len() {
                assert(out[i] == rs[i]);
            }
        }
    }
}

/// The engine after `n` seconds of the scheduler holding `token`.
pub open spec fn run_ticks(e: EngineView, token: u64, n: nat, now: Seq<char>) -> EngineView
    decreases n,
{
    if n == 0 {
        e
    } else {
        run_ticks(tick_step(e, token, now).0, token, (n - 1) as nat, now)
    }
}

/// The events of a countdown of `m` seconds of session `s`: a tick for each
/// remaining count from `m - 1` down to 1, then its completion.
pub open spec fn countdown_events(s: SessionView, m: nat, now: Seq<char>) -> Seq<EventView>
    decreases m,
{
    if m <= 1 {
        seq![EventView::Completed { session: ended(s, SessionStatus::Completed, now) }]
    } else {
        seq![EventView::Tick { remaining_secs: (m - 1) as u64, session: s }] + countdown_events(
            s,
            (m - 1) as nat,
            now,
        )
    }
}

/// A countdown of `m >= 1` seconds publishes `m` events, of which only the
/// last is a completion.
pub proof fn lemma_countdown_shape(s: SessionView, m: nat, now: Seq<char>)
    requires
        m >= 1,
    ensures
        countdown_events(s, m, now).len() == m,
        countdown_events(s, m, now).last() == (EventView::Completed {
            session: ended(s, SessionStatus::Completed, now),
        }),
        forall|i: int| 0 <= i < m - 1 ==> (#[trigger] countdown_events(s, m, now)[i]) is Tick,
    decreases m,
{
    if m > 1 {
        lemma_countdown_shape(s, (m - 1) as nat, now);
        let rest = countdown_events(s, (m - 1) as nat, now);
        let head = seq![EventView::Tick { remaining_secs: (m - 1) as u64, session: s }];
        assert forall|i: int| 0 <= i < m - 1 implies (#[trigger] countdown_events(s, m, now)[i]) is Tick by {
            if i > 0 {
                assert(countdown_events(s, m, now)[i] == rest[i - 1]);
            }
        }
    }
}

/// Ticks of a scheduler whose token is not the active one change nothing.
pub proof fn lemma_stale_ticks(e: EngineView, token: u64, n: nat, now: Seq<char>)
    requires
        e.ticker != Some(token),
    ensures
        run_ticks(e, token, n, now) == e,
    decreases n,
{
    if n > 0 {
        lemma_stale_ticks(e, token, (n - 1) as nat, now);
    }
}

/// A running session with `m` seconds left, advanced by its own scheduler
/// for `n >= m` seconds, ends idle having published exactly its countdown.
pub proof fn lemma_countdown(e: EngineView, token: u64, m: nat, n: nat, now: Seq<char>)
    requires
        e.wf(),
        e.is_running(),
        e.ticker == Some(token),
        e.remaining == m,
        n >= m,
    ensures
        run_ticks(e, token, n, now) == (EngineView {
            active: None,
            remaining: 0,
            ticker: None,
            log: e.log + countdown_events(e.active->0, m, now),
            ..e
        }),
    decreases m,
{
    let s = e.active->0;
    let e1 = tick_step(e, token, now).0;
    if m <= 1 {
        lemma_stale_ticks(e1, token, (n - 1) as nat, now);
        assert(e1.log =~= e.log + countdown_events(s, m, now));
    } else {
        lemma_countdown(e1, token, (m - 1) as nat, (n - 1) as nat, now);
        assert(e1.log + countdown_events(s, (m - 1) as nat, now) =~= e.log + countdown_events(
            s,
            m,
            now,
        ));
    }
}

/// A one-minute session left running: after sixty or more seconds of its
/// scheduler the engine is idle and has published its start, fifty-nine
/// ticks and exactly one completion, which comes last.
pub proof fn lemma_one_minute_completes(
    e: EngineView,
    l: Seq<char>,
    o: Origin,
    id: Seq<char>,
    started: Seq<char>,
    n: nat,
    now: Seq<char>,
)
    requires
        e.wf(),
        !e.is_running(),
        label_ok(trimmed(l)),
        n >= 60,
    ensures
        ({
            let e1 = start_step(e, 1, l, o, id, started).0;
            let s = start_step(e, 1, l, o, id, started).1->Ok_0;
            let e2 = run_ticks(e1, e.next_ticker, n, now);
            &&& !e2.is_running()
            &&& e2.log == e.log.push(EventView::Started { session: s }) + countdown_events(
                s,
                60,
                now,
            )
            &&& countdown_events(s, 60, now).len() == 60
            &&& forall|i: int| 0 <= i < 59 ==> (#[trigger] countdown_events(s, 60, now)[i]) is Tick
            &&& countdown_events(s, 60, now)[59] == (EventView::Completed {
                session: ended(s, SessionStatus::Completed, now),
            })
        }),
{
    let e1 = start_step(e, 1, l, o, id, started).0;
    let s = start_step(e, 1, l, o, id, started).1->Ok_0;
    lemma_countdown(e1, e.next_ticker, 60, n, now);
    lemma_countdown_shape(s, 60, now);
}


/// After a session completes naturally the engine is idle again, and a
/// valid start succeeds.
pub proof fn lemma_restart_after_completion(
    e: EngineView,
    token: u64,
    done: Seq<char>,
    m: u32,
    l: Seq<char>,
    o: Origin,
    id: Seq<char>,
    now: Seq<char>,
)
    requires
        e.wf(),
        tick_step(e, token, done).1 == TickOutcome::Finished,
        valid_start(m, l),
    ensures
        !tick_step(e, token, done).0.is_running(),
        tick_step(e, token, done).0.wf(),
        start_step(tick_step(e, token, done).0, m, l, o, id, now).1 is Ok,
{
}

} // verus!
