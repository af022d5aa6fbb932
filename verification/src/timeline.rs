//! What holds of the timer loop over any run of ticks.

use vstd::prelude::*;
use crate::timer::{initial, run, step, Tick, TimerModel};

verus! {

/// No tick of the run finds the quit flag set.
pub open spec fn no_quit(ticks: Seq<Tick>) -> bool {
    forall|i: int| 0 <= i < ticks.len() ==> !(#[trigger] ticks[i]).quit
}

/// The clock does not run backwards: no tick is earlier than `floor`, nor
/// than a tick before it.
pub open spec fn clock_ordered(floor: int, ticks: Seq<Tick>) -> bool {
    &&& forall|i: int| 0 <= i < ticks.len() ==> floor <= (#[trigger] ticks[i]).now
    &&& forall|i: int, j: int|
        0 <= i <= j < ticks.len() ==> (#[trigger] ticks[i]).now <= (#[trigger] ticks[j]).now
}

/// The total length of the pauses that the ticks show from beginning to
/// end. A pause begins at the first tick that finds the pause flag set and
/// ends at the next tick that finds it clear; `pending` is the beginning of
/// a pause that is under way before the first tick. A pause that has not
/// ended does not count.
pub open spec fn paused_total(ticks: Seq<Tick>, pending: Option<int>) -> int
    decreases ticks.len(),
{
    if ticks.len() == 0 {
        0
    } else if ticks[0].paused {
        paused_total(
            ticks.drop_first(),
            if pending is None {
                Some(ticks[0].now as int)
            } else {
                pending
            },
        )
    } else {
        (match pending {
            Some(p) => ticks[0].now - p,
            None => 0,
        }) + paused_total(ticks.drop_first(), None)
    }
}

/// The state is consistent with a clock that has reached `floor`: what was
/// shown last was shown no later than the pause under way began, or than
/// `floor`, and that pause began no later than `floor`.
pub open spec fn settled(m: TimerModel, floor: int) -> bool {
    match m.pause_started_at {
        Some(p) => m.start_time + m.elapsed <= p <= floor,
        None => m.start_time + m.elapsed <= floor,
    }
}

/// The loop ends at the first tick that finds the quit flag set: the ticks
/// from that one on change nothing.
pub proof fn lemma_run_ends_at_quit(m: TimerModel, ticks: Seq<Tick>, i: int)
    requires
        0 <= i < ticks.len(),
        ticks[i].quit,
    ensures
        run(m, ticks) == run(m, ticks.take(i)),
    decreases ticks.len(),
{
    if i == 0 || ticks[0].quit {
        if i > 0 {
            assert(ticks.take(i)[0] == ticks[0]);
        }
    } else {
        assert(ticks.take(i)[0] == ticks[0]);
        assert(ticks.take(i).drop_first() =~= ticks.drop_first().take(i - 1));
        lemma_run_ends_at_quit(step(m, ticks[0]), ticks.drop_first(), i - 1);
    }
}

/// A tick that finds the quit flag set leaves the state as it is, and so
/// does one that finds the pause flag set leave the elapsed time.
pub proof fn lemma_no_render_without_running(m: TimerModel, t: Tick)
    requires
        t.quit || t.paused,
    ensures
        step(m, t).elapsed == m.elapsed,
        step(m, t).start_time == m.start_time,
        t.quit ==> step(m, t) == m,
{
}

/// Over a run without quit, the start time moves forward by exactly the
/// pauses that ended in it.
pub proof fn lemma_start_moves_by_pauses(m: TimerModel, ticks: Seq<Tick>)
    requires
        no_quit(ticks),
    ensures
        run(m, ticks).start_time == m.start_time + paused_total(ticks, m.pause_started_at),
    decreases ticks.len(),
{
    if ticks.len() > 0 {
        assert(!ticks[0].quit);
        assert forall|i: int| 0 <= i < ticks.drop_first().len() implies !(
        #[trigger] ticks.drop_first()[i]).quit by {
            assert(ticks.drop_first()[i] == ticks[i + 1]);
        }
        lemma_start_moves_by_pauses(step(m, ticks[0]), ticks.drop_first());
    }
}

/// After a run without quit whose last tick found the pause flag clear, the
/// elapsed time shown is the time from the start as it stands to that tick,
/// and no pause is under way.
pub proof fn lemma_shown_at_last_tick(m: TimerModel, ticks: Seq<Tick>)
    requires
        ticks.len() > 0,
        no_quit(ticks),
        !ticks.last().paused,
    ensures
        run(m, ticks).elapsed == ticks.last().now - run(m, ticks).start_time,
        run(m, ticks).pause_started_at is None,
    decreases ticks.len(),
{
    assert(!ticks[0].quit);
    let rest = ticks.drop_first();
    if rest.len() == 0 {
        assert(ticks.last() == ticks[0]);
        assert(run(step(m, ticks[0]), rest) == step(m, ticks[0]));
    } else {
        assert forall|i: int| 0 <= i < rest.len() implies !(#[trigger] rest[i]).quit by {
            assert(rest[i] == ticks[i + 1]);
        }
        assert(rest.last() == ticks.last());
        lemma_shown_at_last_tick(step(m, ticks[0]), rest);
    }
}

/// Pauses are left out: when the timer started at `start` and the last
/// tick found it running, the elapsed time shown is the wall-clock time
/// since the start less the total length of the pauses that have ended.
pub proof fn lemma_pauses_excluded(start: int, ticks: Seq<Tick>)
    requires
        ticks.len() > 0,
        no_quit(ticks),
        !ticks.last().paused,
    ensures
        run(initial(start), ticks).elapsed == ticks.last().now - start - paused_total(ticks, None),
{
    lemma_start_moves_by_pauses(initial(start), ticks);
    lemma_shown_at_last_tick(initial(start), ticks);
}

/// A pause, however many ticks it lasts, has no net effect: the tick that
/// finds the timer running again shows the elapsed time as it was when the
/// pause was first seen, the start time having moved by the length of the
/// pause.
pub proof fn lemma_pause_has_no_net_effect(m: TimerModel, held: Seq<Tick>, resume: Tick)
    requires
        m.pause_started_at is None,
        held.len() > 0,
        forall|i: int| 0 <= i < held.len() ==> (#[trigger] held[i]).paused && !held[i].quit,
        !resume.paused,
        !resume.quit,
    ensures
        run(m, held.push(resume)).pause_started_at is None,
        run(m, held.push(resume)).start_time == m.start_time + (resume.now - held[0].now),
        run(m, held.push(resume)).elapsed == held[0].now - m.start_time,
{
    let ticks = held.push(resume);
    assert(no_quit(ticks));
    assert(ticks.last() == resume);
    lemma_start_moves_by_pauses(m, ticks);
    lemma_shown_at_last_tick(m, ticks);
    lemma_one_pause(ticks, None, held.len() as int);
    assert(ticks[0] == held[0]);
}

/// The total of a run that is one pause and the tick that ends it.
proof fn lemma_one_pause(ticks: Seq<Tick>, pending: Option<int>, n: int)
    requires
        n >= 0,
        ticks.len() == n + 1,
        forall|i: int| 0 <= i < n ==> (#[trigger] ticks[i]).paused,
        !ticks[n].paused,
        n == 0 ==> pending is Some,
    ensures
        paused_total(ticks, pending) == ticks[n].now - (match pending {
            Some(p) => p,
            None => ticks[0].now as int,
        }),
    decreases n,
{
    let rest = ticks.drop_first();
    if n == 0 {
        assert(rest.len() == 0);
        assert(paused_total(rest, None) == 0);
    } else {
        assert(ticks[0].paused);
        assert forall|i: int| 0 <= i < n - 1 implies (#[trigger] rest[i]).paused by {
            assert(rest[i] == ticks[i + 1]);
        }
        assert(rest[n - 1] == ticks[n]);
        let next = if pending is None {
            Some(ticks[0].now as int)
        } else {
            pending
        };
        lemma_one_pause(rest, next, n - 1);
    }
}

/// One tick of a clock that does not run backwards never lowers the
/// elapsed time, and leaves the state consistent with the clock.
pub proof fn lemma_step_keeps_order(m: TimerModel, floor: int, t: Tick)
    requires
        settled(m, floor),
        floor <= t.now,
    ensures
        m.elapsed <= step(m, t).elapsed,
        settled(step(m, t), t.now as int),
{
}

/// Under a clock that does not run backwards the elapsed time never goes
/// down: what a run ends on is no less than what any part of it showed.
pub proof fn lemma_run_keeps_order(m: TimerModel, floor: int, ticks: Seq<Tick>, k: int)
    requires
        settled(m, floor),
        clock_ordered(floor, ticks),
        0 <= k <= ticks.len(),
    ensures
        m.elapsed <= run(m, ticks.take(k)).elapsed <= run(m, ticks).elapsed,
    decreases ticks.len(),
{
    if ticks.len() == 0 {
        assert(ticks.take(k) =~= ticks);
    } else if ticks[0].quit {
        if k > 0 {
            assert(ticks.take(k)[0] == ticks[0]);
        }
    } else {
        let rest = ticks.drop_first();
        let next = step(m, ticks[0]);
        lemma_step_keeps_order(m, floor, ticks[0]);
        assert(clock_ordered(ticks[0].now as int, rest)) by {
            assert forall|i: int| 0 <= i < rest.len() implies ticks[0].now <= (
            #[trigger] rest[i]).now by {
                assert(rest[i] == ticks[i + 1]);
            }
            assert forall|i: int, j: int| 0 <= i <= j < rest.len() implies (
            #[trigger] rest[i]).now <= (#[trigger] rest[j]).now by {
                assert(rest[i] == ticks[i + 1]);
                assert(rest[j] == ticks[j + 1]);
            }
        }
        if k == 0 {
            lemma_run_keeps_order(next, ticks[0].now as int, rest, 0);
            assert(rest.take(0).len() == 0);
        } else {
            assert(ticks.take(k)[0] == ticks[0]);
            assert(ticks.take(k).drop_first() =~= rest.take(k - 1));
            lemma_run_keeps_order(next, ticks[0].now as int, rest, k - 1);
        }
    }
}

/// The final value is no smaller than anything shown before it: for a
/// timer started at `start` under a clock that does not run backwards,
/// the elapsed time after the first `k` ticks is at most the elapsed time
/// after all of them, and never negative.
pub proof fn lemma_display_never_goes_back(start: int, ticks: Seq<Tick>, k: int)
    requires
        clock_ordered(start, ticks),
        0 <= k <= ticks.len(),
    ensures
        0 <= run(initial(start), ticks.take(k)).elapsed <= run(initial(start), ticks).elapsed,
{
    lemma_run_keeps_order(initial(start), start, ticks, k);
}

} // verus!
