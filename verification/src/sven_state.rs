//! The desk controller: an estimate of where the desk is, and the motion
//! requests that change it.
//!
//! Nothing measures the desk's height. The controller knows it only from the
//! pulses it has asked for, so every request returns the pulses that the
//! caller has to carry out, in order, and leaves the estimate as it will be
//! once they are done.

use vstd::prelude::*;
use vstd::std_specs::convert::TryFromSpecImpl;
use crate::calibration::{
    displacement_of, first_fit_from, height_of, lemma_longest_fit, lemma_position_near,
    lemma_positions_table, longest_fit, position_near, within_tolerance, EXTRA_MM_PER_SECOND,
    MAX_HEIGHT_MM, MIN_HEIGHT_MM, MS_TO_MM, POSITIONS_MM, POS_THRESH,
};
use crate::gpio::{pulse_down, pulse_up, Direction, Pulse};
use crate::motion::{
    after_height, after_position, after_pulse, after_relative, at_height, at_position, height_plan,
    lemma_moved_twice, lemma_row_displacement, lowered, moved,
    position_plan, raised, relative_covered, relative_plan, transition, transition_row_from,
    HOMING_MS, TRANSITIONS,
};

verus! {

/// A calibrated waypoint of the desk, or `Custom` when the desk is at none.
#[derive(Debug, Copy, Clone, PartialEq, Eq, Hash, Structural)]
pub enum SvenPosition {
    Bottom,
    Top,
    Armrest,
    AboveArmrest,
    Standing,
    Custom,
}

/// The position that a wire code stands for: `0` to `5` in the order of the
/// variants, nothing for any other code.
pub open spec fn position_of_code(code: u32) -> Option<SvenPosition> {
    match code {
        0 => Some(SvenPosition::Bottom),
        1 => Some(SvenPosition::Top),
        2 => Some(SvenPosition::Armrest),
        3 => Some(SvenPosition::AboveArmrest),
        4 => Some(SvenPosition::Standing),
        5 => Some(SvenPosition::Custom),
        _ => None,
    }
}

/// The position that a wire code stands for, as `position_of_code` gives it;
/// a code that stands for none is refused.
impl TryFrom<u32> for SvenPosition {
    type Error = ();

    fn try_from(value: u32) -> (r: Result<Self, Self::Error>) {
        match value {
            0 => Ok(SvenPosition::Bottom),
            1 => Ok(SvenPosition::Top),
            2 => Ok(SvenPosition::Armrest),
            3 => Ok(SvenPosition::AboveArmrest),
            4 => Ok(SvenPosition::Standing),
            5 => Ok(SvenPosition::Custom),
            _ => Err(()),
        }
    }
}

impl TryFromSpecImpl<u32> for SvenPosition {
    open spec fn obeys_try_from_spec() -> bool {
        true
    }

    open spec fn try_from_spec(value: u32) -> Result<Self, Self::Error> {
        match position_of_code(value) {
            Some(position) => Ok(position),
            None => Err(()),
        }
    }
}

/// Where the desk is taken to be.
#[derive(Debug, Copy, Clone, PartialEq, Eq, Structural)]
pub struct SvenState {
    pub height_mm: u32,
    pub position: SvenPosition,
}

impl SvenState {
    /// Whether the height lies within the desk's travel.
    pub open spec fn within_limits(&self) -> bool {
        MIN_HEIGHT_MM <= self.height_mm <= MAX_HEIGHT_MM
    }

    /// Height of a named position, looked up in `POSITIONS_MM`.
    pub fn get_position_mm(position: SvenPosition) -> (mm: u32)
        ensures
            mm == height_of(position),
    {
        let mut row: usize = 0;
        while row < 5
            invariant
                row <= 5,
                forall|seen: int| 0 <= seen < row ==> POSITIONS_MM[seen].0 != position,
            decreases 5 - row,
        {
            if POSITIONS_MM[row].0 == position {
                return POSITIONS_MM[row].1;
            }
            row += 1;
        }
        MIN_HEIGHT_MM
    }

    /// The named position that the current height lies at.
    pub fn get_position_from_height(&self) -> (position: SvenPosition)
        ensures
            position == position_near(self.height_mm as int),
    {
        let curr_height = self.height_mm;
        let mut row: usize = 0;
        while row < 5
            invariant
                row <= 5,
                curr_height == self.height_mm,
                forall|seen: int|
                    0 <= seen < row ==> !within_tolerance(
                        curr_height as int,
                        (#[trigger] POSITIONS_MM[seen]).1 as int,
                    ),
            decreases 5 - row,
        {
            let pos_height = POSITIONS_MM[row].1;
            if curr_height <= pos_height + POS_THRESH && curr_height >= pos_height - POS_THRESH {
                proof {
                    lemma_positions_table();
                    lemma_position_near(curr_height as int, POSITIONS_MM[row as int].0);
                }
                return POSITIONS_MM[row].0;
            }
            row += 1;
        }
        SvenPosition::Custom
    }

    /// Millimetres that a pulse of `ms` milliseconds moves the desk.
    pub fn get_duration_mm(ms: u32) -> (mm: u32)
        ensures
            mm == displacement_of(ms as nat),
    {
        let s = ms / 1000;
        if s > 10 {
            return MS_TO_MM[9].1 + EXTRA_MM_PER_SECOND * (s - 10);
        }
        let mut row: usize = 0;
        while row < 10
            invariant
                row <= 10,
                s == ms / 1000,
                forall|seen: int| 0 <= seen < row ==> MS_TO_MM[seen].0 / 1000 != s,
            decreases 10 - row,
        {
            if MS_TO_MM[row].0 / 1000 == s {
                return MS_TO_MM[row].1;
            }
            row += 1;
        }
        0
    }

    /// A pulse of `delta_ms` milliseconds upwards. The height rises by what
    /// the pulse moves, up to the upper limit, and the position follows the
    /// height.
    pub fn move_up(&mut self, delta_ms: u32) -> (pulse: Pulse)
        ensures
            pulse == pulse_up(delta_ms),
            *final(self) == after_pulse(*old(self), pulse),
            final(self).height_mm == raised(old(self).height_mm, displacement_of(delta_ms as nat)),
            final(self).height_mm <= MAX_HEIGHT_MM,
            old(self).within_limits() ==> final(self).within_limits(),
    {
        let delta_mm = Self::get_duration_mm(delta_ms);
        let risen = self.height_mm.saturating_add(delta_mm);
        self.height_mm = if risen > MAX_HEIGHT_MM {
            MAX_HEIGHT_MM
        } else {
            risen
        };
        self.position = self.get_position_from_height();
        Pulse::up(delta_ms)
    }

    /// A pulse of `delta_ms` milliseconds downwards. The height sinks by
    /// what the pulse moves, down to the lower limit, and the position
    /// follows the height.
    pub fn move_down(&mut self, delta_ms: u32) -> (pulse: Pulse)
        ensures
            pulse == pulse_down(delta_ms),
            *final(self) == after_pulse(*old(self), pulse),
            final(self).height_mm == lowered(
                old(self).height_mm,
                displacement_of(delta_ms as nat),
            ),
            final(self).height_mm >= MIN_HEIGHT_MM,
            old(self).within_limits() ==> final(self).within_limits(),
    {
        let delta_mm = Self::get_duration_mm(delta_ms);
        let sunk = self.height_mm.saturating_sub(delta_mm);
        self.height_mm = if sunk < MIN_HEIGHT_MM {
            MIN_HEIGHT_MM
        } else {
            sunk
        };
        self.position = self.get_position_from_height();
        Pulse::down(delta_ms)
    }

    /// The longest measured pulse that moves the desk by no more than
    /// `distance_left` millimetres, as its duration and its displacement.
    pub fn longest_fitting(distance_left: u32) -> (found: Option<(u32, u32)>)
        ensures
            match longest_fit(distance_left as nat) {
                Some(row) => found == Some(MS_TO_MM[row]),
                None => found is None,
            },
    {
        let mut row: usize = 10;
        while row > 0
            invariant
                row <= 10,
                longest_fit(distance_left as nat) == first_fit_from(
                    row - 1,
                    distance_left as nat,
                ),
            decreases row,
        {
            row -= 1;
            if MS_TO_MM[row].1 <= distance_left {
                return Some(MS_TO_MM[row]);
            }
        }
        None
    }

    /// The pulse that takes the desk from the named position `from` to the
    /// named position `to`, where `TRANSITIONS` holds one.
    pub fn transition_between(from: SvenPosition, to: SvenPosition) -> (pulse: Option<Pulse>)
        ensures
            pulse == transition(from, to),
    {
        let mut row: usize = 0;
        while row < 21
            invariant
                row <= 21,
                transition_row_from(0, from, to) == transition_row_from(row as int, from, to),
            decreases 21 - row,
        {
            if TRANSITIONS[row].0 == from && TRANSITIONS[row].1 == to {
                return Some(
                    Pulse { direction: TRANSITIONS[row].2, duration_ms: TRANSITIONS[row].3 },
                );
            }
            row += 1;
        }
        None
    }

    /// A controller for a desk that stands anywhere. The desk is brought to
    /// the top and from there to `startup`; the pulses that do so come with
    /// the estimate. With a named position as `startup` the desk is at a
    /// named position afterwards.
    pub fn new(startup: SvenPosition) -> (made: (SvenState, Vec<Pulse>))
        ensures
            made.0 == at_position(startup),
            made.1@ == position_plan(SvenPosition::Custom, startup),
            made.0.within_limits(),
            startup != SvenPosition::Custom ==> made.0.position != SvenPosition::Custom,
    {
        let mut sven_state = SvenState { height_mm: 0, position: SvenPosition::Custom };
        let pulses = sven_state.move_to_position(startup);
        (sven_state, pulses)
    }

    /// Moves to the named position `position`. From `Custom` the desk first
    /// goes to the top. Afterwards the desk is taken to be at `position`, at
    /// that position's own height, whatever the height was before.
    pub fn move_to_position(&mut self, position: SvenPosition) -> (pulses: Vec<Pulse>)
        ensures
            pulses@ == position_plan(old(self).position, position),
            *final(self) == after_position(*old(self), position),
            final(self).within_limits(),
    {
        let mut pulses: Vec<Pulse> = Vec::new();
        if self.position == SvenPosition::Custom {
            let homing = self.move_up(HOMING_MS);
            pulses.push(homing);
            self.position = SvenPosition::Top;
            self.height_mm = MAX_HEIGHT_MM;
        }
        match Self::transition_between(self.position, position) {
            Some(pulse) => {
                let issued = match pulse.direction {
                    Direction::Up => self.move_up(pulse.duration_ms),
                    Direction::Down => self.move_down(pulse.duration_ms),
                };
                pulses.push(issued);
            },
            None => {},
        }
        self.position = position;
        self.height_mm = Self::get_position_mm(position);
        pulses
    }

    /// Moves by `delta_mm` millimetres in `direction`, with the longest
    /// measured pulses that fit. What is left of the distance when no pulse
    /// fits any more is not moved.
    pub fn move_relative(&mut self, direction: Direction, delta_mm: u32) -> (pulses: Vec<Pulse>)
        ensures
            pulses@ == relative_plan(direction, delta_mm as nat),
            *final(self) == after_relative(*old(self), direction, delta_mm as nat),
            old(self).within_limits() ==> final(self).within_limits(),
    {
        let ghost start = *self;
        let mut pulses: Vec<Pulse> = Vec::new();
        let mut distance_left = delta_mm;
        proof {
            lemma_longest_fit(0);
        }
        while distance_left > 0
            invariant
                distance_left <= delta_mm,
                longest_fit(0) is None,
                pulses@ + relative_plan(direction, distance_left as nat) == relative_plan(
                    direction,
                    delta_mm as nat,
                ),
                (delta_mm - distance_left) + relative_covered(distance_left as nat)
                    == relative_covered(delta_mm as nat),
                pulses.len() == 0 ==> distance_left == delta_mm && *self == start,
                pulses.len() > 0 ==> *self == at_height(
                    moved(start.height_mm, direction, (delta_mm - distance_left) as nat),
                ),
            ensures
                longest_fit(distance_left as nat) is None,
            decreases distance_left,
        {
            proof {
                lemma_longest_fit(distance_left as nat);
            }
            match Self::longest_fitting(distance_left) {
                Some((max_duration, max_distance)) => {
                    proof {
                        lemma_row_displacement(longest_fit(distance_left as nat).unwrap());
                        lemma_moved_twice(
                            start.height_mm,
                            direction,
                            (delta_mm - distance_left) as nat,
                            max_distance as nat,
                        );
                    }
                    let ghost issued_before = pulses@;
                    let issued = match direction {
                        Direction::Up => self.move_up(max_duration),
                        Direction::Down => self.move_down(max_duration),
                    };
                    pulses.push(issued);
                    assert(pulses@ + relative_plan(
                        direction,
                        (distance_left - max_distance) as nat,
                    ) == issued_before + relative_plan(direction, distance_left as nat));
                    distance_left = distance_left.saturating_sub(max_distance);
                },
                None => {
                    break;
                },
            }
        }
        proof {
            lemma_longest_fit(distance_left as nat);
        }
        pulses
    }

    /// Moves up by `delta_mm` millimetres.
    pub fn move_up_relative(&mut self, delta_mm: u32) -> (pulses: Vec<Pulse>)
        ensures
            pulses@ == relative_plan(Direction::Up, delta_mm as nat),
            *final(self) == after_relative(*old(self), Direction::Up, delta_mm as nat),
            old(self).within_limits() ==> final(self).within_limits(),
    {
        self.move_relative(Direction::Up, delta_mm)
    }

    /// Moves down by `delta_mm` millimetres.
    pub fn move_down_relative(&mut self, delta_mm: u32) -> (pulses: Vec<Pulse>)
        ensures
            pulses@ == relative_plan(Direction::Down, delta_mm as nat),
            *final(self) == after_relative(*old(self), Direction::Down, delta_mm as nat),
            old(self).within_limits() ==> final(self).within_limits(),
    {
        self.move_relative(Direction::Down, delta_mm)
    }

    /// Moves to the height `height_mm`. Nothing happens when the desk is
    /// taken to be there already. A height below the lower limit is a move
    /// to `Bottom`, one above the upper limit a move to `Top`; any other is
    /// a move by the difference.
    pub fn move_to_height(&mut self, height_mm: u32) -> (pulses: Vec<Pulse>)
        ensures
            pulses@ == height_plan(*old(self), height_mm),
            *final(self) == after_height(*old(self), height_mm),
            old(self).within_limits() ==> final(self).within_limits(),
    {
        if height_mm == self.height_mm {
            return Vec::new();
        }
        if height_mm < MIN_HEIGHT_MM {
            return self.move_to_position(SvenPosition::Bottom);
        }
        if height_mm > MAX_HEIGHT_MM {
            return self.move_to_position(SvenPosition::Top);
        }
        if height_mm > self.height_mm {
            let delta_mm = height_mm - self.height_mm;
            self.move_up_relative(delta_mm)
        } else {
            let delta_mm = self.height_mm - height_mm;
            self.move_down_relative(delta_mm)
        }
    }
}

/// The controller's estimate as it is reported to the outside.
#[derive(Debug, Copy, Clone, PartialEq, Eq, Structural)]
pub struct SvenStatePub {
    pub height_mm: u32,
    pub position: SvenPosition,
}

impl SvenStatePub {
    /// The report of `sven_state`.
    pub fn new(sven_state: &SvenState) -> (report: Self)
        ensures
            report.height_mm == sven_state.height_mm,
            report.position == sven_state.position,
    {
        SvenStatePub { height_mm: sven_state.height_mm, position: sven_state.position }
    }
}

} // verus!
