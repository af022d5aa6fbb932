//! The timer loop: elapsed active time under pause and resume.

use vstd::prelude::*;
use crate::render::{clock_face, render_elapsed};

verus! {

/// What the timer loop finds when it wakes: both flags, and the wall clock
/// in milliseconds since the Unix epoch.
#[derive(Clone, Copy, Debug, PartialEq, Eq)]
pub struct Tick {
    pub quit: bool,
    pub paused: bool,
    pub now: i64,
}

/// What the timer loop does after a wake-up.
#[derive(Clone, Copy, Debug, PartialEq, Eq)]
pub enum TimerAction {
    /// The quit flag was set: leave the loop with the elapsed time as it stands.
    Finish,
    /// The pause flag was set: leave the display frozen.
    Hold,
    /// Show the elapsed time, which has just been brought up to date.
    Render,
}

/// Why a wake-up could not be accounted for.
#[derive(Clone, Copy, Debug, PartialEq, Eq)]
pub enum TimerError {
    /// The start time or the elapsed time would leave the range of `i64`
    /// milliseconds.
    OutOfRange,
}

/// The timer's state over the integers.
pub struct TimerModel {
    /// The start of the session, moved forward by every finished pause.
    pub start_time: int,
    /// When the pause that is under way was first seen; `None` while running.
    pub pause_started_at: Option<int>,
    /// The elapsed time that was shown last, in milliseconds.
    pub elapsed: int,
}

/// The state a timer starts in at time `now`: running, nothing elapsed.
pub open spec fn initial(now: int) -> TimerModel {
    TimerModel { start_time: now, pause_started_at: None, elapsed: 0 }
}

/// What the timer does on a tick. It depends on the flags alone.
pub open spec fn action_on(t: Tick) -> TimerAction {
    if t.quit {
        TimerAction::Finish
    } else if t.paused {
        TimerAction::Hold
    } else {
        TimerAction::Render
    }
}

/// The start time after a running tick at `now`: a pause that was under way
/// since `p` ends here, and its length `now - p` is taken out of the
/// session by moving the start forward.
pub open spec fn resumed_start(m: TimerModel, now: int) -> int {
    match m.pause_started_at {
        Some(p) => m.start_time + (now - p),
        None => m.start_time,
    }
}

/// The state after one tick.
pub open spec fn step(m: TimerModel, t: Tick) -> TimerModel {
    match action_on(t) {
        TimerAction::Finish => m,
        TimerAction::Hold => TimerModel {
            pause_started_at: if m.pause_started_at is None {
                Some(t.now as int)
            } else {
                m.pause_started_at
            },
            ..m
        },
        TimerAction::Render => TimerModel {
            start_time: resumed_start(m, t.now as int),
            pause_started_at: None,
            elapsed: t.now - resumed_start(m, t.now as int),
        },
    }
}

/// The state after a run of ticks. The loop ends at the first tick that
/// finds the quit flag set; what comes after it is never looked at.
pub open spec fn run(m: TimerModel, ticks: Seq<Tick>) -> TimerModel
    decreases ticks.len(),
{
    if ticks.len() == 0 || ticks[0].quit {
        m
    } else {
        run(step(m, ticks[0]), ticks.drop_first())
    }
}

/// Whether a state can be held in `i64` fields.
pub open spec fn representable(m: TimerModel) -> bool {
    &&& i64::MIN <= m.start_time <= i64::MAX
    &&& i64::MIN <= m.elapsed <= i64::MAX
    &&& m.pause_started_at matches Some(p) ==> i64::MIN <= p <= i64::MAX
}

/// Whether every state that a run goes through can be held in `i64` fields.
pub open spec fn run_representable(m: TimerModel, ticks: Seq<Tick>) -> bool
    decreases ticks.len(),
{
    if ticks.len() == 0 || ticks[0].quit {
        true
    } else {
        representable(step(m, ticks[0])) && run_representable(
            step(m, ticks[0]),
            ticks.drop_first(),
        )
    }
}

/// The state that the timer loop owns.
#[derive(Clone, Copy, Debug, PartialEq, Eq)]
pub struct TimerState {
    pub start_time: i64,
    pub pause_started_at: Option<i64>,
    pub elapsed: i64,
}

impl View for TimerState {
    type V = TimerModel;

    open spec fn view(&self) -> TimerModel {
        TimerModel {
            start_time: self.start_time as int,
            pause_started_at: match self.pause_started_at {
                Some(p) => Some(p as int),
                None => None,
            },
            elapsed: self.elapsed as int,
        }
    }
}

impl TimerState {
    /// A timer that starts at `now`.
    pub fn new(now: i64) -> (s: TimerState)
        ensures
            s@ == initial(now as int),
    {
        TimerState { start_time: now, pause_started_at: None, elapsed: 0 }
    }

    /// Accounts for one wake-up of the timer loop.
    ///
    /// The state moves as `step` says and the action is returned, unless the
    /// new start time or elapsed time does not fit in `i64`: then nothing
    /// changes and the error is returned.
    pub fn tick(&mut self, t: Tick) -> (r: Result<TimerAction, TimerError>)
        ensures
            representable(step(old(self)@, t)) ==> r == Ok::<TimerAction, TimerError>(action_on(t))
                && final(self)@ == step(old(self)@, t),
            !representable(step(old(self)@, t)) ==> r == Err::<TimerAction, TimerError>(
                TimerError::OutOfRange,
            ) && *final(self) == *old(self),
    {
        if t.quit {
            return Ok(TimerAction::Finish);
        }
        if t.paused {
            if self.pause_started_at.is_none() {
                self.pause_started_at = Some(t.now);
            }
            return Ok(TimerAction::Hold);
        }
        let now: i128 = t.now as i128;
        let start: i128 = match self.pause_started_at {
            Some(p) => self.start_time as i128 + (now - p as i128),
            None => self.start_time as i128,
        };
        let elapsed: i128 = now - start;
        if start < i64::MIN as i128 || start > i64::MAX as i128 || elapsed < i64::MIN as i128
            || elapsed > i64::MAX as i128 {
            return Err(TimerError::OutOfRange);
        }
        self.start_time = start as i64;
        self.pause_started_at = None;
        self.elapsed = elapsed as i64;
        Ok(TimerAction::Render)
    }
}

impl TimerState {
    /// Runs the timer loop over the wake-ups in `ticks`, up to the first one
    /// that finds the quit flag set, and returns the state it ends in.
    pub fn run(self, ticks: &[Tick]) -> (r: Result<TimerState, TimerError>)
        ensures
            run_representable(self@, ticks@) ==> (r matches Ok(s) && s@ == run(self@, ticks@)),
            !run_representable(self@, ticks@) ==> r == Err::<TimerState, TimerError>(
                TimerError::OutOfRange,
            ),
    {
        let mut state = self;
        let mut i: usize = 0;
        assert(ticks@.skip(0) =~= ticks@);
        while i < ticks.len()
            invariant
                i <= ticks.len(),
                run_representable(self@, ticks@) == run_representable(state@, ticks@.skip(i as int)),
                run(self@, ticks@) == run(state@, ticks@.skip(i as int)),
            decreases ticks.len() - i,
        {
            let t = ticks[i];
            proof {
                assert(ticks@.skip(i as int)[0] == t);
                assert(ticks@.skip(i as int).drop_first() =~= ticks@.skip(i + 1));
            }
            match state.tick(t) {
                Ok(TimerAction::Finish) => {
                    return Ok(state);
                },
                Ok(_) => {},
                Err(e) => {
                    return Err(e);
                },
            }
            i += 1;
        }
        Ok(state)
    }
}

/// The timer loop, from the time it starts at to the elapsed time it
/// reports: the display that was shown last before the quit flag was seen,
/// or before the ticks ran out.
pub fn elapsed_time(start: i64, ticks: &[Tick]) -> (r: Result<String, TimerError>)
    ensures
        run_representable(initial(start as int), ticks@) ==> (r matches Ok(s) && s@ == clock_face(
            run(initial(start as int), ticks@).elapsed,
        )),
        !run_representable(initial(start as int), ticks@) ==> r == Err::<String, TimerError>(
            TimerError::OutOfRange,
        ),
{
    match TimerState::new(start).run(ticks) {
        Ok(state) => Ok(render_elapsed(state.elapsed)),
        Err(e) => Err(e),
    }
}

} // verus!
