//! The tick scheduler: while the session is running, a fixed minimum
//! interval must elapse between successive generations, measured from
//! the timestamp of the previous applied generation. Each poll either
//! advances exactly one generation or does nothing.

use crate::life::stepped;
use crate::machine::{Mode, SessionView};
use vstd::prelude::*;

verus! {

/// Minimum number of milliseconds between successive generations, so
/// that generations stay visible to a human observer.
pub const TICK_INTERVAL_MS: u64 = 300;

/// Whether enough time has passed since the last applied generation.
/// A session that has never applied one is always due, so the first
/// generation after session start never waits.
pub open spec fn tick_due(last: Option<int>, now: int) -> bool {
    match last {
        None => true,
        Some(t) => now >= t + TICK_INTERVAL_MS,
    }
}

/// Whether a poll at time `now` advances a generation: only while
/// running, and only once the interval has elapsed.
pub open spec fn tick_advances(s: SessionView, now: int) -> bool {
    s.mode == Mode::Running && tick_due(s.last_tick_ms, now)
}

/// The session after one scheduler poll at time `now` (milliseconds):
/// either exactly one generation is applied and its time recorded, or
/// nothing changes.
pub open spec fn step_tick(s: SessionView, now: int) -> SessionView {
    if tick_advances(s, now) {
        SessionView { grid: stepped(s.grid), last_tick_ms: Some(now), ..s }
    } else {
        s
    }
}

/// Law: two polls less than the tick interval apart advance at most
/// one generation; in particular, if the first poll advances, the
/// second changes nothing.
pub proof fn lemma_tick_throttle(s: SessionView, t1: int, t2: int)
    requires
        t2 < t1 + TICK_INTERVAL_MS,
    ensures
        !(tick_advances(s, t1) && tick_advances(step_tick(s, t1), t2)),
        tick_advances(s, t1) ==> step_tick(step_tick(s, t1), t2) == step_tick(s, t1),
{
}

/// Law: while running, two due polls at least the tick interval apart
/// each advance exactly one generation.
pub proof fn lemma_tick_spacing(s: SessionView, t1: int, t2: int)
    requires
        s.mode == Mode::Running,
        tick_due(s.last_tick_ms, t1),
        t1 + TICK_INTERVAL_MS <= t2,
    ensures
        tick_advances(s, t1),
        tick_advances(step_tick(s, t1), t2),
        step_tick(s, t1).grid == stepped(s.grid),
        step_tick(step_tick(s, t1), t2).grid == stepped(stepped(s.grid)),
{
}

} // verus!
