//! Open-loop controller for a height-adjustable desk.
//!
//! The desk has no position sensor. The controller keeps an estimate of the
//! desk's height and turns each motion request into a sequence of timed
//! pulses for the "up" and "down" actuators.

pub mod calibration;
pub mod command;
pub mod gpio;
pub mod motion;
pub mod sven_state;
