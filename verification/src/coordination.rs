//! What holds of a session over any run of events.

use vstd::prelude::*;
use crate::listener::{command_for, Flags, Key, KeyCommand, Listener, QUIT_KEY};
use crate::render::clock_face;
use crate::session::{after, emitted, opening, play, report, Event, SessionModel};
use crate::timeline::{lemma_step_keeps_order, settled};
use crate::timer::TimerAction;

verus! {

/// The event is a press of the pause key.
pub open spec fn is_toggle(e: Event) -> bool {
    e matches Event::Key(key) && command_for(key) == KeyCommand::TogglePause
}

/// The event is a press of the quit key.
pub open spec fn is_quit(e: Event) -> bool {
    e matches Event::Key(key) && command_for(key) == KeyCommand::Quit
}

/// How many presses of the pause key a run of events holds.
pub open spec fn toggles(events: Seq<Event>) -> nat
    decreases events.len(),
{
    if events.len() == 0 {
        0
    } else {
        (if is_toggle(events[0]) {
            1nat
        } else {
            0nat
        }) + toggles(events.drop_first())
    }
}

/// The clock does not run backwards: no wake-up is earlier than `floor`,
/// nor than a wake-up before it.
pub open spec fn wakes_ordered(floor: int, events: Seq<Event>) -> bool {
    &&& forall|i: int|
        0 <= i < events.len() ==> ((#[trigger] events[i]) matches Event::Wake(now) ==> floor
            <= now)
    &&& forall|i: int, j: int|
        0 <= i <= j < events.len() ==> ((#[trigger] events[i]) matches Event::Wake(a) ==> (
        (#[trigger] events[j]) matches Event::Wake(b) ==> a <= b))
}

/// While nobody quits, the pause flag is decided by the number of presses
/// of the pause key alone: an odd number flips it, an even number leaves it
/// as it was. Wake-ups of the timer loop in between change no flag.
pub proof fn lemma_toggles_decide_pause(s: SessionModel, events: Seq<Event>)
    requires
        s.listener.listening,
        forall|i: int| 0 <= i < events.len() ==> !is_quit(#[trigger] events[i]),
    ensures
        play(s, events).listener == (Listener {
            flags: Flags {
                pause: s.listener.flags.pause != (toggles(events) % 2 == 1),
                quit: s.listener.flags.quit,
            },
            listening: true,
        }),
    decreases events.len(),
{
    if events.len() > 0 {
        let rest = events.drop_first();
        assert(!is_quit(events[0]));
        assert forall|i: int| 0 <= i < rest.len() implies !is_quit(#[trigger] rest[i]) by {
            assert(rest[i] == events[i + 1]);
        }
        lemma_toggles_decide_pause(after(s, events[0]), rest);
    }
}

/// Toggling is idempotent in pairs: an even number of presses of the
/// pause key, with keys that are not bound among them at will, and with
/// neither a quit nor a wake-up of the timer loop in between, leaves the
/// whole session as it was.
pub proof fn lemma_even_toggles_cancel(s: SessionModel, events: Seq<Event>)
    requires
        forall|i: int|
            0 <= i < events.len() ==> (#[trigger] events[i]) is Key && !is_quit(events[i]),
        toggles(events) % 2 == 0,
    ensures
        play(s, events) == s,
{
    lemma_keys_spare_the_timer(s, events);
    if s.listener.listening {
        lemma_toggles_decide_pause(s, events);
    } else {
        lemma_deaf_once_ended(s, events);
    }
}

/// Keys do not reach the timer loop: a run of key events leaves its state
/// alone.
pub proof fn lemma_keys_spare_the_timer(s: SessionModel, events: Seq<Event>)
    requires
        forall|i: int| 0 <= i < events.len() ==> (#[trigger] events[i]) is Key,
    ensures
        play(s, events).timer == s.timer,
        play(s, events).timing == s.timing,
    decreases events.len(),
{
    if events.len() > 0 {
        let rest = events.drop_first();
        assert(events[0] is Key);
        assert forall|i: int| 0 <= i < rest.len() implies (#[trigger] rest[i]) is Key by {
            assert(rest[i] == events[i + 1]);
        }
        lemma_keys_spare_the_timer(after(s, events[0]), rest);
    }
}

/// A listener that has ended stays as it is, whatever comes.
pub proof fn lemma_deaf_once_ended(s: SessionModel, events: Seq<Event>)
    requires
        !s.listener.listening,
    ensures
        play(s, events).listener == s.listener,
    decreases events.len(),
{
    if events.len() > 0 {
        lemma_deaf_once_ended(after(s, events[0]), events.drop_first());
    }
}

/// Once the quit flag is set and the listener has ended, the session is
/// over: no event changes the flags or the timer's state, the report stays
/// what it is, and a wake-up of the timer loop ends that loop for good.
pub proof fn lemma_nothing_after_quit(s: SessionModel, events: Seq<Event>)
    requires
        s.listener.flags.quit,
        !s.listener.listening,
    ensures
        play(s, events).listener == s.listener,
        play(s, events).timer == s.timer,
        report(play(s, events)) == report(s),
        play(s, events).timing ==> s.timing,
        (exists|i: int| 0 <= i < events.len() && (#[trigger] events[i]) is Wake) ==> !play(
            s,
            events,
        ).timing,
    decreases events.len(),
{
    if events.len() > 0 {
        let rest = events.drop_first();
        let next = after(s, events[0]);
        lemma_nothing_after_quit(next, rest);
        if exists|i: int| 0 <= i < events.len() && (#[trigger] events[i]) is Wake {
            let i = choose|i: int| 0 <= i < events.len() && (#[trigger] events[i]) is Wake;
            if i > 0 {
                assert(rest[i - 1] == events[i]);
            }
        }
    }
}

/// The quit key ends both units: the listener stops at once with the quit
/// flag set, and whatever follows, the timer's state is the one it had
/// when the key was pressed, the report is the display shown last before
/// it, and the first wake-up of the timer loop ends that loop.
pub proof fn lemma_quit_ends_both(s: SessionModel, later: Seq<Event>)
    requires
        s.listener.listening,
    ensures
        ({
            let q = after(s, Event::Key(Key::Char(QUIT_KEY)));
            &&& !q.listener.listening
            &&& q.listener.flags.quit
            &&& play(q, later).listener == q.listener
            &&& play(q, later).timer == s.timer
            &&& report(play(q, later)) == Some(clock_face(s.timer.elapsed))
            &&& (exists|i: int| 0 <= i < later.len() && (#[trigger] later[i]) is Wake) ==> !play(
                q,
                later,
            ).timing
        }),
{
    lemma_nothing_after_quit(after(s, Event::Key(Key::Char(QUIT_KEY))), later);
}

/// The display is frozen while the timer is paused: from a session with
/// the pause flag set, over events without a press of the pause key, no
/// wake-up of the timer loop renders, and the elapsed time stays what it
/// was.
pub proof fn lemma_frozen_while_paused(s: SessionModel, events: Seq<Event>, i: int)
    requires
        s.listener.flags.pause,
        forall|j: int| 0 <= j < events.len() ==> !is_toggle(#[trigger] events[j]),
        0 <= i < events.len(),
    ensures
        play(s, events.take(i)).listener.flags.pause,
        emitted(play(s, events.take(i)), events[i]) != Some(TimerAction::Render),
        play(s, events.take(i)).timer.elapsed == s.timer.elapsed,
        play(s, events).timer.elapsed == s.timer.elapsed,
{
    lemma_pause_holds(s, events.take(i));
    lemma_pause_holds(s, events);
}

/// While the pause flag is set and the pause key is not pressed, the flag
/// stays set and the elapsed time stays what it was.
proof fn lemma_pause_holds(s: SessionModel, events: Seq<Event>)
    requires
        s.listener.flags.pause,
        forall|j: int| 0 <= j < events.len() ==> !is_toggle(#[trigger] events[j]),
    ensures
        play(s, events).listener.flags.pause,
        play(s, events).timer.elapsed == s.timer.elapsed,
    decreases events.len(),
{
    if events.len() > 0 {
        let rest = events.drop_first();
        assert(!is_toggle(events[0]));
        assert forall|j: int| 0 <= j < rest.len() implies !is_toggle(#[trigger] rest[j]) by {
            assert(rest[j] == events[j + 1]);
        }
        lemma_pause_holds(after(s, events[0]), rest);
    }
}

/// Under a clock that does not run backwards the elapsed time of a session
/// never goes down, whatever keys are pressed.
pub proof fn lemma_session_keeps_order(s: SessionModel, floor: int, events: Seq<Event>, k: int)
    requires
        settled(s.timer, floor),
        wakes_ordered(floor, events),
        0 <= k <= events.len(),
    ensures
        s.timer.elapsed <= play(s, events.take(k)).timer.elapsed <= play(s, events).timer.elapsed,
    decreases events.len(),
{
    if events.len() == 0 {
        assert(events.take(k) =~= events);
    } else {
        let rest = events.drop_first();
        let next = after(s, events[0]);
        let ceiling = match events[0] {
            Event::Wake(now) => now as int,
            Event::Key(_) => floor,
        };
        match events[0] {
            Event::Wake(now) => {
                if s.timing {
                    lemma_step_keeps_order(s.timer, floor, crate::session::tick_seen(s, now));
                } else {
                    assert(settled(s.timer, now as int));
                }
            },
            Event::Key(_) => {},
        }
        assert(wakes_ordered(ceiling, rest)) by {
            assert forall|i: int| 0 <= i < rest.len() implies ((
            #[trigger] rest[i]) matches Event::Wake(now) ==> ceiling <= now) by {
                assert(rest[i] == events[i + 1]);
            }
            assert forall|i: int, j: int| 0 <= i <= j < rest.len() implies ((
            #[trigger] rest[i]) matches Event::Wake(a) ==> ((
            #[trigger] rest[j]) matches Event::Wake(b) ==> a <= b)) by {
                assert(rest[i] == events[i + 1]);
                assert(rest[j] == events[j + 1]);
            }
        }
        if k == 0 {
            lemma_session_keeps_order(next, ceiling, rest, 0);
            assert(rest.take(0).len() == 0);
            assert(events.take(0).len() == 0);
        } else {
            assert(events.take(k)[0] == events[0]);
            assert(events.take(k).drop_first() =~= rest.take(k - 1));
            lemma_session_keeps_order(next, ceiling, rest, k - 1);
        }
    }
}

/// What a session reports is no smaller than anything its timer showed
/// before: for a session opened at `start` under a clock that does not run
/// backwards, the elapsed time after the first `k` events is at most the
/// elapsed time after all of them, and never negative.
pub proof fn lemma_report_never_goes_back(start: int, events: Seq<Event>, k: int)
    requires
        wakes_ordered(start, events),
        0 <= k <= events.len(),
    ensures
        0 <= play(opening(start), events.take(k)).timer.elapsed <= play(
            opening(start),
            events,
        ).timer.elapsed,
{
    lemma_session_keeps_order(opening(start), start, events, k);
}

} // verus!
