//! The desk's actuators.
//!
//! The desk is moved by two momentary outputs, one for each direction. An
//! output is held active for a while and then released: a pulse. This module
//! decides what is done to an output during a pulse; driving the electrical
//! signal and waiting are left to the caller.

use vstd::prelude::*;

verus! {

/// Direction of travel. Each direction has an actuator of its own.
#[derive(Debug, Copy, Clone, PartialEq, Eq, Structural)]
pub enum Direction {
    Up,
    Down,
}

/// A request to hold the actuator of one direction active for a time.
#[derive(Debug, Copy, Clone, PartialEq, Eq, Structural)]
pub struct Pulse {
    pub direction: Direction,
    pub duration_ms: u32,
}

/// The upward pulse of `duration_ms` milliseconds.
pub open spec fn pulse_up(duration_ms: u32) -> Pulse {
    Pulse { direction: Direction::Up, duration_ms }
}

/// The downward pulse of `duration_ms` milliseconds.
pub open spec fn pulse_down(duration_ms: u32) -> Pulse {
    Pulse { direction: Direction::Down, duration_ms }
}

impl Pulse {
    /// An upward pulse of `duration_ms` milliseconds.
    pub fn up(duration_ms: u32) -> (pulse: Pulse)
        ensures
            pulse == pulse_up(duration_ms),
    {
        Pulse { direction: Direction::Up, duration_ms }
    }

    /// A downward pulse of `duration_ms` milliseconds.
    pub fn down(duration_ms: u32) -> (pulse: Pulse)
        ensures
            pulse == pulse_down(duration_ms),
    {
        Pulse { direction: Direction::Down, duration_ms }
    }
}

/// Electrical level of an output.
#[derive(Debug, Copy, Clone, PartialEq, Eq, Structural)]
pub enum Level {
    Low,
    High,
}

/// One thing to do to an output, or between two of them.
#[derive(Debug, Copy, Clone, PartialEq, Eq, Structural)]
pub enum PinStep {
    /// Drive the output to this level.
    Drive(Level),
    /// Leave the output as it is for this many milliseconds.
    Hold(u32),
}

/// One actuator output together with its polarity.
#[derive(Debug, Copy, Clone)]
pub struct PulsePin {
    active_high: bool,
}

impl PulsePin {
    /// Whether the output is active at the high level.
    pub closed spec fn active_high(&self) -> bool {
        self.active_high
    }

    /// Level at which the output drives the motor.
    pub open spec fn active_level(&self) -> Level {
        if self.active_high() {
            Level::High
        } else {
            Level::Low
        }
    }

    /// Level at which the output is at rest.
    pub open spec fn idle_level(&self) -> Level {
        if self.active_high() {
            Level::Low
        } else {
            Level::High
        }
    }

    /// An output that is active at the high level if `active_high` is set,
    /// at the low level otherwise.
    pub fn new(active_high: bool) -> (pin: Self)
        ensures
            pin.active_high() == active_high,
    {
        Self { active_high }
    }

    /// The steps of one pulse, in the order in which they are to be carried
    /// out: drive the output active, hold it for `duration` milliseconds,
    /// drive it back to rest. The output is released also when `duration` is
    /// zero.
    pub fn pulse(&self, duration: u32) -> (steps: [PinStep; 3])
        ensures
            steps[0] == PinStep::Drive(self.active_level()),
            steps[1] == PinStep::Hold(duration),
            steps[2] == PinStep::Drive(self.idle_level()),
    {
        if self.active_high {
            [PinStep::Drive(Level::High), PinStep::Hold(duration), PinStep::Drive(Level::Low)]
        } else {
            [PinStep::Drive(Level::Low), PinStep::Hold(duration), PinStep::Drive(Level::High)]
        }
    }
}

} // verus!
