//! Countdown timers that drive spawn cadence and the power-up buff window.
//!
//! A timer counts whole simulation ticks. A `Once` timer fires when its
//! period elapses and then stays finished; a `Repeating` timer fires for
//! exactly one tick per elapsed period and rearms itself.

use vstd::prelude::*;

verus! {

#[derive(Clone, Copy, PartialEq, Eq, Structural, Debug)]
pub enum TimerMode {
    /// Fires once, then reports finished forever (until a reset).
    Once,
    /// Fires for one tick each time the period elapses, then rearms.
    Repeating,
}

/// A countdown over whole simulation ticks.
#[derive(Clone, Copy, PartialEq, Eq, Structural, Debug)]
pub struct GameTimer {
    /// Ticks elapsed in the current period.
    pub elapsed: u32,
    /// Length of one period in ticks.
    pub duration: u32,
    pub mode: TimerMode,
    /// For a repeating timer: whether the period elapsed on the last tick.
    pub just_fired: bool,
}

impl GameTimer {
    /// A timer is well formed when its period is positive and its elapsed
    /// count stays inside the current period.
    pub open spec fn wf(self) -> bool {
        &&& self.duration >= 1
        &&& match self.mode {
            TimerMode::Once => self.elapsed <= self.duration && !self.just_fired,
            TimerMode::Repeating => self.elapsed < self.duration,
        }
    }

    /// Whether the timer reports its period as elapsed on this tick.
    pub open spec fn spec_finished(self) -> bool {
        match self.mode {
            TimerMode::Once => self.elapsed == self.duration,
            TimerMode::Repeating => self.just_fired,
        }
    }

    pub fn new(duration: u32, mode: TimerMode) -> (t: GameTimer)
        requires
            duration >= 1,
        ensures
            t.wf(),
            t.duration == duration,
            t.mode == mode,
            t.elapsed == 0,
            !t.spec_finished(),
    {
        GameTimer { elapsed: 0, duration, mode, just_fired: false }
    }

    /// Whether the current period has elapsed: permanently true for a
    /// finished `Once` timer, true for exactly one tick per firing of a
    /// `Repeating` timer.
    pub fn finished(&self) -> (r: bool)
        ensures
            r == self.spec_finished(),
    {
        match self.mode {
            TimerMode::Once => self.elapsed == self.duration,
            TimerMode::Repeating => self.just_fired,
        }
    }

    /// The state one tick of advance leaves a well-formed timer in.
    pub open spec fn spec_ticked(t: GameTimer) -> GameTimer {
        match t.mode {
            TimerMode::Once => GameTimer {
                elapsed: if t.elapsed < t.duration {
                    (t.elapsed + 1) as u32
                } else {
                    t.elapsed
                },
                ..t
            },
            TimerMode::Repeating => if t.elapsed + 1 == t.duration {
                GameTimer { elapsed: 0, just_fired: true, ..t }
            } else {
                GameTimer { elapsed: (t.elapsed + 1) as u32, just_fired: false, ..t }
            },
        }
    }

    /// Advance the timer by one simulation tick.
    pub fn tick(&mut self)
        requires
            old(self).wf(),
        ensures
            final(self).wf(),
            *final(self) == GameTimer::spec_ticked(*old(self)),
    {
        match self.mode {
            TimerMode::Once => {
                if self.elapsed < self.duration {
                    self.elapsed = self.elapsed + 1;
                }
            },
            TimerMode::Repeating => {
                self.elapsed = self.elapsed + 1;
                if self.elapsed == self.duration {
                    self.elapsed = 0;
                    self.just_fired = true;
                } else {
                    self.just_fired = false;
                }
            },
        }
    }

    /// Restart the countdown without changing the mode, as when a pickup
    /// refreshes the buff window.
    pub fn reset(&mut self)
        requires
            old(self).wf(),
        ensures
            final(self).wf(),
            final(self).duration == old(self).duration,
            final(self).mode == old(self).mode,
            final(self).elapsed == 0,
            !final(self).spec_finished(),
    {
        self.elapsed = 0;
        self.just_fired = false;
    }
}

/// Ticks between enemy spawn bursts (two seconds).
pub const ENEMY_SPAWN_TICKS: u32 = 120;

/// Ticks between power-up spawn attempts (ten seconds).
pub const DIAMOND_SPAWN_TICKS: u32 = 600;

/// Length of the diamond buff window (one minute).
pub const DIAMOND_POWER_TICKS: u32 = 3600;

/// Ticks between scenery spawn bursts (five seconds).
pub const TREE_SPAWN_TICKS: u32 = 300;

/// Cadence of the timed enemy trickle.
#[derive(Clone, Copy, PartialEq, Eq, Structural, Debug)]
pub struct EnemySpawnTimer {
    pub timer: GameTimer,
}

impl EnemySpawnTimer {
    pub open spec fn wf(self) -> bool {
        &&& self.timer.wf()
        &&& self.timer.mode == TimerMode::Repeating
        &&& self.timer.duration == ENEMY_SPAWN_TICKS
    }
}

impl Default for EnemySpawnTimer {
    fn default() -> (r: EnemySpawnTimer)
        ensures
            r.wf(),
            r.timer.elapsed == 0,
            !r.timer.spec_finished(),
    {
        EnemySpawnTimer { timer: GameTimer::new(ENEMY_SPAWN_TICKS, TimerMode::Repeating) }
    }
}

/// Cadence of power-up spawn attempts.
#[derive(Clone, Copy, PartialEq, Eq, Structural, Debug)]
pub struct DiamondSpawnTimer {
    pub timer: GameTimer,
}

impl DiamondSpawnTimer {
    pub open spec fn wf(self) -> bool {
        &&& self.timer.wf()
        &&& self.timer.mode == TimerMode::Repeating
        &&& self.timer.duration == DIAMOND_SPAWN_TICKS
    }
}

impl Default for DiamondSpawnTimer {
    fn default() -> (r: DiamondSpawnTimer)
        ensures
            r.wf(),
            r.timer.elapsed == 0,
            !r.timer.spec_finished(),
    {
        DiamondSpawnTimer { timer: GameTimer::new(DIAMOND_SPAWN_TICKS, TimerMode::Repeating) }
    }
}

/// The shared buff-duration window; a pickup resets it rather than starting
/// a fresh timer.
#[derive(Clone, Copy, PartialEq, Eq, Structural, Debug)]
pub struct DiamondPowerTimer {
    pub timer: GameTimer,
}

impl DiamondPowerTimer {
    pub open spec fn wf(self) -> bool {
        &&& self.timer.wf()
        &&& self.timer.mode == TimerMode::Once
        &&& self.timer.duration == DIAMOND_POWER_TICKS
    }
}

impl Default for DiamondPowerTimer {
    fn default() -> (r: DiamondPowerTimer)
        ensures
            r.wf(),
            r.timer.elapsed == 0,
            !r.timer.spec_finished(),
    {
        DiamondPowerTimer { timer: GameTimer::new(DIAMOND_POWER_TICKS, TimerMode::Once) }
    }
}

/// Cadence of the timed scenery trickle.
#[derive(Clone, Copy, PartialEq, Eq, Structural, Debug)]
pub struct TreeSpawnTimer {
    pub timer: GameTimer,
}

impl TreeSpawnTimer {
    pub open spec fn wf(self) -> bool {
        &&& self.timer.wf()
        &&& self.timer.mode == TimerMode::Repeating
        &&& self.timer.duration == TREE_SPAWN_TICKS
    }
}

impl Default for TreeSpawnTimer {
    fn default() -> (r: TreeSpawnTimer)
        ensures
            r.wf(),
            r.timer.elapsed == 0,
            !r.timer.spec_finished(),
    {
        TreeSpawnTimer { timer: GameTimer::new(TREE_SPAWN_TICKS, TimerMode::Repeating) }
    }
}

} // verus!
