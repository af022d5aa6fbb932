//! A whole session: the listener and the timer loop on their shared flags.
//!
//! The two units run side by side and meet only in the flags. A session is
//! therefore a sequence of events, each of them one unit's turn: a key that
//! the listener handles, or a wake-up of the timer loop.

use vstd::prelude::*;
use crate::listener::{heard, Flags, Key, Listener};
use crate::render::{clock_face, render_elapsed};
use crate::timer::{
    action_on, initial, representable, step, Tick, TimerAction, TimerError, TimerModel,
    TimerState,
};

verus! {

/// One turn of one unit.
#[derive(Clone, Copy, Debug, PartialEq, Eq)]
pub enum Event {
    /// The listener reads a key.
    Key(Key),
    /// The timer loop wakes at this time, in milliseconds since the Unix
    /// epoch.
    Wake(i64),
}

/// A session over the integers.
pub struct SessionModel {
    pub listener: Listener,
    pub timer: TimerModel,
    /// Whether the timer loop still runs: it ends on the first wake-up that
    /// finds the quit flag set.
    pub timing: bool,
}

/// The session that starts at time `now`: flags clear, both units running.
pub open spec fn opening(now: int) -> SessionModel {
    SessionModel {
        listener: Listener { flags: Flags { pause: false, quit: false }, listening: true },
        timer: initial(now),
        timing: true,
    }
}

/// What the timer loop finds when it wakes at `now` in session `s`.
pub open spec fn tick_seen(s: SessionModel, now: i64) -> Tick {
    Tick { quit: s.listener.flags.quit, paused: s.listener.flags.pause, now }
}

/// The session after one event. A unit that has ended takes no more turns.
pub open spec fn after(s: SessionModel, e: Event) -> SessionModel {
    match e {
        Event::Key(key) => SessionModel { listener: heard(s.listener, key), ..s },
        Event::Wake(now) => if s.timing {
            SessionModel {
                timer: step(s.timer, tick_seen(s, now)),
                timing: !s.listener.flags.quit,
                ..s
            }
        } else {
            s
        },
    }
}

/// What the timer loop does on an event: nothing on a key, nor once it has
/// ended.
pub open spec fn emitted(s: SessionModel, e: Event) -> Option<TimerAction> {
    match e {
        Event::Key(_) => None,
        Event::Wake(now) => if s.timing {
            Some(action_on(tick_seen(s, now)))
        } else {
            None
        },
    }
}

/// The session after a run of events.
pub open spec fn play(s: SessionModel, events: Seq<Event>) -> SessionModel
    decreases events.len(),
{
    if events.len() == 0 {
        s
    } else {
        play(after(s, events[0]), events.drop_first())
    }
}

/// Whether every timer state that a run of events goes through can be held
/// in `i64` fields.
pub open spec fn playable(s: SessionModel, events: Seq<Event>) -> bool
    decreases events.len(),
{
    if events.len() == 0 {
        true
    } else {
        representable(after(s, events[0]).timer) && playable(
            after(s, events[0]),
            events.drop_first(),
        )
    }
}

/// What the session reports: nothing while the listener still listens;
/// once it has ended, the display that the timer loop showed last.
pub open spec fn report(s: SessionModel) -> Option<Seq<char>> {
    if s.listener.listening {
        None
    } else {
        Some(clock_face(s.timer.elapsed))
    }
}

/// A session as the coordinator holds it.
#[derive(Clone, Copy, Debug, PartialEq, Eq)]
pub struct Session {
    pub listener: Listener,
    pub timer: TimerState,
    pub timing: bool,
}

impl View for Session {
    type V = SessionModel;

    open spec fn view(&self) -> SessionModel {
        SessionModel { listener: self.listener, timer: self.timer@, timing: self.timing }
    }
}

impl Session {
    /// Opens a session at time `now`.
    pub fn new(now: i64) -> (s: Session)
        ensures
            s@ == opening(now as int),
    {
        Session { listener: Listener::new(Flags::new()), timer: TimerState::new(now), timing: true }
    }

    /// Gives one unit its turn, and returns what the timer loop did.
    ///
    /// If the timer's new state does not fit in `i64`, nothing changes and
    /// the error is returned.
    pub fn handle(&mut self, e: Event) -> (r: Result<Option<TimerAction>, TimerError>)
        ensures
            representable(after(old(self)@, e).timer) ==> r == Ok::<
                Option<TimerAction>,
                TimerError,
            >(emitted(old(self)@, e)) && final(self)@ == after(old(self)@, e),
            !representable(after(old(self)@, e).timer) ==> r == Err::<
                Option<TimerAction>,
                TimerError,
            >(TimerError::OutOfRange) && *final(self) == *old(self),
    {
        match e {
            Event::Key(key) => {
                self.listener.hear(key);
                Ok(None)
            },
            Event::Wake(now) => {
                if !self.timing {
                    return Ok(None);
                }
                let t = Tick {
                    quit: self.listener.flags.quit,
                    paused: self.listener.flags.pause,
                    now,
                };
                match self.timer.tick(t) {
                    Ok(action) => {
                        self.timing = !t.quit;
                        Ok(Some(action))
                    },
                    Err(e) => Err(e),
                }
            },
        }
    }

    /// What the coordinator reports for this session.
    pub fn result(&self) -> (r: Option<String>)
        ensures
            match r {
                Some(text) => report(self@) == Some(text@),
                None => report(self@) is None,
            },
    {
        if self.listener.listening {
            None
        } else {
            Some(render_elapsed(self.timer.elapsed))
        }
    }
}

/// Plays a session from time `start` through `events` and returns its
/// report.
pub fn run_session(start: i64, events: &[Event]) -> (r: Result<Option<String>, TimerError>)
    ensures
        match r {
            Ok(Some(text)) => playable(opening(start as int), events@) && report(
                play(opening(start as int), events@),
            ) == Some(text@),
            Ok(None) => playable(opening(start as int), events@) && report(
                play(opening(start as int), events@),
            ) is None,
            Err(e) => !playable(opening(start as int), events@) && e == TimerError::OutOfRange,
        },
{
    let mut s = Session::new(start);
    let mut i: usize = 0;
    assert(events@.skip(0) =~= events@);
    while i < events.len()
        invariant
            i <= events.len(),
            representable(s@.timer),
            playable(opening(start as int), events@) == playable(s@, events@.skip(i as int)),
            play(opening(start as int), events@) == play(s@, events@.skip(i as int)),
        decreases events.len() - i,
    {
        proof {
            assert(events@.skip(i as int)[0] == events[i as int]);
            assert(events@.skip(i as int).drop_first() =~= events@.skip(i + 1));
        }
        match s.handle(events[i]) {
            Ok(_) => {},
            Err(e) => {
                return Err(e);
            },
        }
        i += 1;
    }
    Ok(s.result())
}

} // verus!
