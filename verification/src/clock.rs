//! Control state of the session's three timers. The collaborator
//! scheduler owns the tick mechanism and delivers fires as events; the
//! core owns only each timer's configuration and whether it is running,
//! and the controller proves that it starts and stops them at the right
//! transitions.

use vstd::prelude::*;

verus! {

/// Whether a timer stops after one fire or keeps firing at its interval.
#[derive(Clone, Copy, PartialEq, Eq, Structural, Debug)]
pub enum FireMode {
    OneShot,
    Repeating,
}

/// The control state of one timer: a fixed interval (micro time units),
/// a fire mode, and whether it is currently scheduled to fire.
#[derive(Clone, Copy, PartialEq, Eq, Structural, Debug)]
pub struct TimerState {
    pub interval: i64,
    pub mode: FireMode,
    pub running: bool,
}

/// `timer` with its running flag set to `running` and everything else
/// kept.
pub open spec fn with_running(timer: TimerState, running: bool) -> TimerState {
    TimerState { interval: timer.interval, mode: timer.mode, running: running }
}

impl TimerState {
    /// Idempotent (re)start from zero: the timer is scheduled afterwards,
    /// whatever it was before; interval and mode are kept.
    pub fn start(&mut self)
        ensures
            *final(self) == with_running(*old(self), true),
    {
        self.running = true;
    }

    /// Cancels a pending fire; a no-op if the timer is not running.
    pub fn stop(&mut self)
        ensures
            *final(self) == with_running(*old(self), false),
    {
        self.running = false;
    }
}

/// The three independently controllable timers of one session.
#[derive(Clone, Copy, PartialEq, Eq, Structural, Debug)]
pub struct SessionClock {
    /// One-shot delay between a start request and the match proper.
    pub countdown: TimerState,
    /// Repeating tick that awards one score point per fire.
    pub score_tick: TimerState,
    /// Repeating tick that requests one enemy spawn per fire.
    pub spawn_tick: TimerState,
}

impl SessionClock {
    /// The fire modes the session configures its timers with.
    pub open spec fn wf(self) -> bool {
        &&& self.countdown.mode is OneShot
        &&& self.score_tick.mode is Repeating
        &&& self.spawn_tick.mode is Repeating
    }

    /// All three timers idle.
    pub open spec fn all_stopped(self) -> bool {
        &&& !self.countdown.running
        &&& !self.score_tick.running
        &&& !self.spawn_tick.running
    }

    /// Builds the clock with the three configured intervals, nothing
    /// running yet.
    pub fn new(
        countdown_interval: i64,
        score_interval: i64,
        spawn_interval: i64,
    ) -> (c: SessionClock)
        ensures
            c.wf(),
            c.all_stopped(),
            c.countdown.interval == countdown_interval,
            c.score_tick.interval == score_interval,
            c.spawn_tick.interval == spawn_interval,
    {
        SessionClock {
            countdown: TimerState {
                interval: countdown_interval,
                mode: FireMode::OneShot,
                running: false,
            },
            score_tick: TimerState {
                interval: score_interval,
                mode: FireMode::Repeating,
                running: false,
            },
            spawn_tick: TimerState {
                interval: spawn_interval,
                mode: FireMode::Repeating,
                running: false,
            },
        }
    }
}

/// The clock after a start request: the countdown is (re)started; the
/// two match timers are untouched.
pub open spec fn clock_after_start(c: SessionClock) -> SessionClock {
    SessionClock {
        countdown: with_running(c.countdown, true),
        score_tick: c.score_tick,
        spawn_tick: c.spawn_tick,
    }
}

/// The clock after the countdown fires: the one-shot countdown has spent
/// itself, and both match timers are started.
pub open spec fn clock_after_countdown(c: SessionClock) -> SessionClock {
    SessionClock {
        countdown: with_running(c.countdown, false),
        score_tick: with_running(c.score_tick, true),
        spawn_tick: with_running(c.spawn_tick, true),
    }
}

/// The clock after the player is hit: both match timers are stopped.
pub open spec fn clock_after_hit(c: SessionClock) -> SessionClock {
    SessionClock {
        countdown: c.countdown,
        score_tick: with_running(c.score_tick, false),
        spawn_tick: with_running(c.spawn_tick, false),
    }
}

} // verus!
