//! Laws that relate the counters' operations to one another, stated over
//! the abstract states that the executable contracts speak of.
use vstd::prelude::*;
use crate::counter::{CountView, Status, MILLIS_PER_SEC};
use crate::pomodoro::{Mode, PomodoroView};

verus! {

/// While a countdown runs, its value is the count less the whole seconds
/// elapsed since it started, floored at zero, and it never increases.
pub proof fn lemma_countdown_while_running(c: CountView, t1: nat, t2: nat)
    requires
        c.status == Status::Running,
        c.started <= t1,
        t1 <= t2,
    ensures
        c.down_value(t1) == (if c.counter >= (t1 - c.started) / (MILLIS_PER_SEC as int) {
            c.counter - (t1 - c.started) / (MILLIS_PER_SEC as int)
        } else {
            0
        }),
        c.down_value(t2) <= c.down_value(t1),
{
    assert((t1 - c.started) / 1000 <= (t2 - c.started) / 1000) by (nonlinear_arith)
        requires
            c.started <= t1 <= t2,
    ;
}

/// A fresh countdown of `d` seconds reads `d` less the elapsed seconds,
/// floored at zero, for as long as it runs.
pub proof fn lemma_fresh_countdown(d: nat, start: nat, t: nat)
    requires
        start <= t,
    ensures
        CountView::start(d, start).down_value(t) == (if d >= (t - start) / (MILLIS_PER_SEC as int) {
            d - (t - start) / (MILLIS_PER_SEC as int)
        } else {
            0
        }),
{
}

/// While a count-up runs, it never decreases.
pub proof fn lemma_count_up_while_running(c: CountView, t1: nat, t2: nat)
    requires
        c.status == Status::Running,
        c.started <= t1,
        t1 <= t2,
    ensures
        c.up_value(t1) <= c.up_value(t2),
{
    assert((t1 - c.started) / 1000 <= (t2 - c.started) / 1000) by (nonlinear_arith)
        requires
            c.started <= t1 <= t2,
    ;
}

/// Pausing a running countdown at value `v` and resuming it at any later
/// time gives `v` again on resume, and it counts down from `v` thereafter;
/// no time is charged for the pause.
pub proof fn lemma_pause_resume_down(c: CountView, paused_at: nat, resumed_at: nat, t: nat)
    requires
        c.status == Status::Running,
        resumed_at <= t,
    ensures
        ({
            let v = c.down_value(paused_at);
            let p = c.paused_down(paused_at);
            let r = p.resumed(resumed_at);
            &&& p.status == Status::Paused
            &&& p.down_value(resumed_at) == v
            &&& r.status == Status::Running
            &&& r.down_value(resumed_at) == v
            &&& r.down_value(t) == (if v >= (t - resumed_at) / (MILLIS_PER_SEC as int) {
                v - (t - resumed_at) / (MILLIS_PER_SEC as int)
            } else {
                0
            })
        }),
{
}

/// Pausing a running count-up at value `v` and resuming it at any later
/// time gives `v` again on resume, and it counts up from `v` thereafter.
pub proof fn lemma_pause_resume_up(c: CountView, paused_at: nat, resumed_at: nat, t: nat)
    requires
        c.status == Status::Running,
        resumed_at <= t,
    ensures
        ({
            let v = c.up_value(paused_at);
            let p = c.paused_up(paused_at);
            let r = p.resumed(resumed_at);
            &&& p.status == Status::Paused
            &&& p.up_value(resumed_at) == v
            &&& r.status == Status::Running
            &&& r.up_value(resumed_at) == v
            &&& r.up_value(t) == (if v + (t - resumed_at) / (MILLIS_PER_SEC as int) <= u64::MAX {
                v + (t - resumed_at) / (MILLIS_PER_SEC as int)
            } else {
                u64::MAX as int
            })
        }),
{
}

/// Toggling a countdown twice restores its status. A running one comes back
/// running at the value it was paused at; a paused one comes back paused at
/// its value less the seconds it ran in between; an ended one is unchanged.
pub proof fn lemma_toggle_twice_down(c: CountView, t1: nat, t2: nat)
    ensures
        ({
            let r = c.toggled_down(t1).toggled_down(t2);
            &&& r.status == c.status
            &&& c.status == Status::Running ==> r.down_value(t2) == c.down_value(t1)
            &&& c.status == Status::Paused ==> r.down_value(t2) == c.resumed(t1).down_value(t2)
            &&& c.status == Status::Ended ==> r == c
        }),
{
}

/// Toggling a count-up twice restores its status. A running one comes back
/// running at the value it was paused at; a paused one comes back paused at
/// its value plus the seconds it ran in between; an ended one is unchanged.
pub proof fn lemma_toggle_twice_up(c: CountView, t1: nat, t2: nat)
    ensures
        ({
            let r = c.toggled_up(t1).toggled_up(t2);
            &&& r.status == c.status
            &&& c.status == Status::Running ==> r.up_value(t2) == c.up_value(t1)
            &&& c.status == Status::Paused ==> r.up_value(t2) == c.resumed(t1).up_value(t2)
            &&& c.status == Status::Ended ==> r == c
        }),
{
}

/// Ending a countdown twice is ending it once: it stays ended, with the
/// value it had at the first end.
pub proof fn lemma_end_idempotent_down(c: CountView, t1: nat, t2: nat, t: nat)
    ensures
        c.ended_down(t1).ended_down(t2) == c.ended_down(t1),
        c.ended_down(t1).status == Status::Ended,
        c.ended_down(t1).down_value(t) == c.down_value(t1),
{
}

/// Ending a count-up twice is ending it once: it stays ended, with the
/// value it had at the first end.
pub proof fn lemma_end_idempotent_up(c: CountView, t1: nat, t2: nat, t: nat)
    ensures
        c.ended_up(t1).ended_up(t2) == c.ended_up(t1),
        c.ended_up(t1).status == Status::Ended,
        c.ended_up(t1).up_value(t) == c.up_value(t1),
{
}

/// From the first work session, eight phase changes go Break, Work, Break,
/// Work, Break, Work, LongBreak, Work, entering work sessions 2, 3, 4 and 5:
/// the fourth work phase is followed by a long break.
pub proof fn lemma_pomodoro_cycle(p: PomodoroView, now: nat)
    requires
        p.wf(),
        p.mode == Mode::Work,
        p.session == 1,
    ensures
        ({
            let ph1 = p.advanced(now);
            let ph2 = ph1.advanced(now);
            let ph3 = ph2.advanced(now);
            let ph4 = ph3.advanced(now);
            let ph5 = ph4.advanced(now);
            let ph6 = ph5.advanced(now);
            let ph7 = ph6.advanced(now);
            let ph8 = ph7.advanced(now);
            &&& ph1.mode == Mode::Break
            &&& ph2.mode == Mode::Work && ph2.session == 2
            &&& ph3.mode == Mode::Break
            &&& ph4.mode == Mode::Work && ph4.session == 3
            &&& ph5.mode == Mode::Break
            &&& ph6.mode == Mode::Work && ph6.session == 4
            &&& ph7.mode == Mode::LongBreak
            &&& ph8.mode == Mode::Work && ph8.session == 5
        }),
{
    let ph1 = p.advanced(now);
    let ph2 = ph1.advanced(now);
    let ph3 = ph2.advanced(now);
    let ph4 = ph3.advanced(now);
    let ph5 = ph4.advanced(now);
    let ph6 = ph5.advanced(now);
    let ph7 = ph6.advanced(now);
    let ph8 = ph7.advanced(now);
    assert(ph1.mode == Mode::Break && ph1.session == 1);
    assert(ph2.mode == Mode::Work && ph2.session == 2);
    assert(ph3.mode == Mode::Break && ph3.session == 2);
    assert(ph4.mode == Mode::Work && ph4.session == 3);
    assert(ph5.mode == Mode::Break && ph5.session == 3);
    assert(ph6.mode == Mode::Work && ph6.session == 4);
    assert(ph7.mode == Mode::LongBreak && ph7.session == 4);
    assert(ph8.mode == Mode::Work && ph8.session == 5);
}

/// Every phase change keeps a pomodoro well formed; the session grows by
/// exactly one on entering work and is kept otherwise; work is followed by
/// a long break exactly when its session is a multiple of four.
pub proof fn lemma_pomodoro_advance(p: PomodoroView, now: nat)
    requires
        p.wf(),
    ensures
        p.advanced(now).wf(),
        p.advanced(now).mode == Mode::Work ==> p.advanced(now).session == p.session + 1,
        p.advanced(now).mode != Mode::Work ==> p.advanced(now).session == p.session,
        p.mode == Mode::Work ==> (p.advanced(now).mode == Mode::LongBreak <==> p.session % 4 == 0),
        p.mode != Mode::Work ==> p.advanced(now).mode == Mode::Work,
{
}

} // verus!
