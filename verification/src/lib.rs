//! A terminal stopwatch, as a library of decisions.
//!
//! Two units share two flags. The input listener turns key presses into
//! changes of the pause and quit flags; the timer loop wakes once per tick,
//! reads the flags and the clock, and keeps the elapsed active time, with
//! every paused interval left out. The terminal, the waiting and the shared
//! memory belong to the caller: each unit is given here as the function from
//! what it has seen to what it does next.

pub mod clock;
pub mod coordination;
pub mod listener;
pub mod render;
pub mod session;
pub mod timeline;
pub mod timer;
