//! The wall clock, read through `chrono`.

use vstd::prelude::*;
use crate::render::{log_line, render_log_line};
use crate::timer::{
    action_on, initial, representable, step, Tick, TimerAction, TimerError, TimerState,
};

verus! {

/// The period of the timer loop, in milliseconds.
pub const TICK_MILLIS: u64 = 1000;

/// The pattern of the timestamp in the session log: date, time, and the
/// weekday after a comma.
pub const LOG_TIMESTAMP_PATTERN: &'static str = "%Y-%m-%d %H:%M:%S,%a";

/// Trusted: `chrono::Local::now`, turned into a number by
/// `DateTime::timestamp_millis`. The result is the wall clock's time in
/// milliseconds since the Unix epoch; nothing is claimed of its value, which
/// may even be lower than that of an earlier call. `Local::now` gives up
/// on a clock set before 1970.
#[verifier::external_body]
fn wall_clock_millis() -> i64 {
    chrono::Local::now().timestamp_millis()
}

/// Trusted: `chrono::Local::now`, written out by `DateTime::format` and
/// `to_string`. Nothing is claimed of the text, which depends on the time
/// and on the time zone of the machine. The one pattern admitted is the one
/// of the session log, which `chrono` accepts; on a pattern that it cannot
/// read, `to_string` would give up.
#[verifier::external_body]
fn local_time_text(pattern: &str) -> String
    requires
        pattern@ == LOG_TIMESTAMP_PATTERN@,
{
    chrono::Local::now().format(pattern).to_string()
}

impl TimerState {
    /// A timer that starts now, by the wall clock.
    pub fn start() -> (s: TimerState)
        ensures
            s@ == initial(s.start_time as int),
    {
        TimerState::new(wall_clock_millis())
    }

    /// Accounts for a wake-up of the timer loop that happens now: reads the
    /// wall clock, and handles the tick made of the two flags and that time.
    /// The tick is returned with the outcome, which is that of `tick`.
    pub fn wake(&mut self, quit: bool, paused: bool) -> (r: (
        Tick,
        Result<TimerAction, TimerError>,
    ))
        ensures
            r.0.quit == quit,
            r.0.paused == paused,
            representable(step(old(self)@, r.0)) ==> r.1 == Ok::<TimerAction, TimerError>(
                action_on(r.0),
            ) && final(self)@ == step(old(self)@, r.0),
            !representable(step(old(self)@, r.0)) ==> r.1 == Err::<TimerAction, TimerError>(
                TimerError::OutOfRange,
            ) && *final(self) == *old(self),
    {
        let t = Tick { quit, paused, now: wall_clock_millis() };
        let outcome = self.tick(t);
        (t, outcome)
    }
}

/// The line that goes to the session log for a session that ends now with
/// the display `elapsed`: a timestamp of the local time, a comma, and the
/// display.
pub fn log_entry(elapsed: &str) -> (line: String)
    ensures
        exists|stamp: Seq<char>| line@ == log_line(stamp, elapsed@),
{
    let stamp = local_time_text(LOG_TIMESTAMP_PATTERN);
    let line = render_log_line(stamp.as_str(), elapsed);
    assert(line@ == log_line(stamp@, elapsed@));
    line
}

} // verus!
