//! Abstract per-tick input: the host polls devices, edge-detects presses
//! and hands the simulation plain flags and a clamped analogue axis.

use vstd::prelude::*;
use crate::components::PlayerVariant;

verus! {

/// One player's input for one tick. Button fields are `pressed` states;
/// `fire`, `pause` and `restart` are just-pressed edges.
#[derive(Clone, Copy, PartialEq, Eq, Structural, Debug)]
pub struct PlayerInput {
    pub up: bool,
    pub down: bool,
    pub left: bool,
    pub right: bool,
    /// Whether the analogue stick is engaged this tick.
    pub axis_engaged: bool,
    /// Stick deflection in thousandths of a full direction unit.
    pub axis_x: i64,
    pub axis_y: i64,
    pub fire: bool,
    pub pause: bool,
    pub restart: bool,
}

impl PlayerInput {
    /// The host clamps stick deflection to one full unit per axis.
    pub open spec fn wf(self) -> bool {
        &&& -1000 <= self.axis_x <= 1000
        &&& -1000 <= self.axis_y <= 1000
    }

    /// A tick with no input at all.
    pub open spec fn spec_idle() -> PlayerInput {
        PlayerInput {
            up: false,
            down: false,
            left: false,
            right: false,
            axis_engaged: false,
            axis_x: 0,
            axis_y: 0,
            fire: false,
            pause: false,
            restart: false,
        }
    }

    pub fn idle() -> (r: PlayerInput)
        ensures
            r.wf(),
            r == PlayerInput::spec_idle(),
    {
        PlayerInput {
            up: false,
            down: false,
            left: false,
            right: false,
            axis_engaged: false,
            axis_x: 0,
            axis_y: 0,
            fire: false,
            pause: false,
            restart: false,
        }
    }
}

/// Summed direction input along x, in thousandths: digital buttons count a
/// full unit each, the stick adds its deflection.
pub open spec fn spec_dir_x(inp: PlayerInput) -> int {
    (if inp.right {
        1000int
    } else {
        0int
    }) - (if inp.left {
        1000int
    } else {
        0int
    }) + (if inp.axis_engaged {
        inp.axis_x as int
    } else {
        0int
    })
}

/// Summed direction input along y, in thousandths.
pub open spec fn spec_dir_y(inp: PlayerInput) -> int {
    (if inp.up {
        1000int
    } else {
        0int
    }) - (if inp.down {
        1000int
    } else {
        0int
    }) + (if inp.axis_engaged {
        inp.axis_y as int
    } else {
        0int
    })
}

/// Both players' input for one tick.
#[derive(Clone, Copy, PartialEq, Eq, Structural, Debug)]
pub struct InputFrame {
    pub one: PlayerInput,
    pub two: PlayerInput,
}

impl InputFrame {
    pub open spec fn wf(self) -> bool {
        self.one.wf() && self.two.wf()
    }

    pub open spec fn spec_for_player(self, v: PlayerVariant) -> PlayerInput {
        match v {
            PlayerVariant::One => self.one,
            PlayerVariant::Two => self.two,
        }
    }

    pub fn for_player(&self, v: PlayerVariant) -> (r: PlayerInput)
        ensures
            r == self.spec_for_player(v),
    {
        match v {
            PlayerVariant::One => self.one,
            PlayerVariant::Two => self.two,
        }
    }

    /// Whether either player issued the pause edge.
    pub open spec fn spec_any_pause(self) -> bool {
        self.one.pause || self.two.pause
    }

    pub fn any_pause(&self) -> (r: bool)
        ensures
            r == self.spec_any_pause(),
    {
        self.one.pause || self.two.pause
    }

    /// Whether either player issued the restart edge.
    pub open spec fn spec_any_restart(self) -> bool {
        self.one.restart || self.two.restart
    }

    pub fn any_restart(&self) -> (r: bool)
        ensures
            r == self.spec_any_restart(),
    {
        self.one.restart || self.two.restart
    }

    pub fn idle() -> (r: InputFrame)
        ensures
            r.wf(),
            r.one == PlayerInput::spec_idle(),
            r.two == PlayerInput::spec_idle(),
    {
        InputFrame { one: PlayerInput::idle(), two: PlayerInput::idle() }
    }
}

} // verus!
