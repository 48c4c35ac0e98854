//! What each motion request amounts to: the pulses it asks for and the
//! estimate it leaves, as functions of the estimate before it.
//!
//! A move to a named position follows a fixed table of pulses and then takes
//! the position's height as known, whatever the estimate was. A move by a
//! distance is put together from measured pulses, longest first, and never
//! goes further than asked.

use vstd::prelude::*;
use crate::calibration::{
    displacement_of, fits, height_of, lemma_longest_fit, lemma_pulse_table, longest_fit,
    position_near, MAX_HEIGHT_MM, MIN_HEIGHT_MM, MS_TO_MM,
};
use crate::gpio::{pulse_down, pulse_up, Direction, Pulse};
use crate::sven_state::{SvenPosition, SvenState};

verus! {

/// Length of the upward pulse that brings the desk to the top from wherever
/// it stands.
pub const HOMING_MS: u32 = 20000;

/// Height reached by rising `mm` millimetres from `height_mm`: the desk
/// stops at the upper limit.
pub open spec fn raised(height_mm: u32, mm: nat) -> u32 {
    if height_mm + mm > MAX_HEIGHT_MM {
        MAX_HEIGHT_MM
    } else {
        (height_mm + mm) as u32
    }
}

/// Height reached by sinking `mm` millimetres from `height_mm`: the desk
/// stops at the lower limit.
pub open spec fn lowered(height_mm: u32, mm: nat) -> u32 {
    if height_mm - mm < MIN_HEIGHT_MM {
        MIN_HEIGHT_MM
    } else {
        (height_mm - mm) as u32
    }
}

/// Height reached by moving `mm` millimetres in `direction`.
pub open spec fn moved(height_mm: u32, direction: Direction, mm: nat) -> u32 {
    match direction {
        Direction::Up => raised(height_mm, mm),
        Direction::Down => lowered(height_mm, mm),
    }
}

/// The estimate for a desk that has just moved to `height_mm`: the position
/// is the one that the height lies at.
pub open spec fn at_height(height_mm: u32) -> SvenState {
    SvenState { height_mm, position: position_near(height_mm as int) }
}

/// The estimate for a desk that has just been brought to a named position:
/// the height is the position's own.
pub open spec fn at_position(position: SvenPosition) -> SvenState {
    SvenState { height_mm: height_of(position), position }
}

/// The estimate after one pulse has moved the desk.
pub open spec fn after_pulse(state: SvenState, pulse: Pulse) -> SvenState {
    at_height(moved(state.height_mm, pulse.direction, displacement_of(pulse.duration_ms as nat)))
}

/// The estimate after each of `pulses` has moved the desk in turn.
pub open spec fn after_pulses(state: SvenState, pulses: Seq<Pulse>) -> SvenState
    decreases pulses.len(),
{
    if pulses.len() == 0 {
        state
    } else {
        after_pulses(after_pulse(state, pulses.first()), pulses.drop_first())
    }
}

/// The moves between named positions that the desk's geometry gives a pulse
/// for: where the move starts, where it ends, and the direction and the
/// length in milliseconds of the pulse.
pub const TRANSITIONS: [(SvenPosition, SvenPosition, Direction, u32); 21] = [
    (SvenPosition::Top, SvenPosition::Top, Direction::Up, 5000),
    (SvenPosition::Top, SvenPosition::Standing, Direction::Down, 4300),
    (SvenPosition::Top, SvenPosition::AboveArmrest, Direction::Down, 13500),
    (SvenPosition::Top, SvenPosition::Armrest, Direction::Down, 14800),
    (SvenPosition::Top, SvenPosition::Bottom, Direction::Down, 20000),
    (SvenPosition::Armrest, SvenPosition::Bottom, Direction::Down, 5000),
    (SvenPosition::Armrest, SvenPosition::AboveArmrest, Direction::Up, 1920),
    (SvenPosition::Armrest, SvenPosition::Standing, Direction::Up, 11000),
    (SvenPosition::Armrest, SvenPosition::Top, Direction::Up, 16000),
    (SvenPosition::AboveArmrest, SvenPosition::Armrest, Direction::Down, 1900),
    (SvenPosition::AboveArmrest, SvenPosition::Bottom, Direction::Down, 7000),
    (SvenPosition::AboveArmrest, SvenPosition::Standing, Direction::Up, 9900),
    (SvenPosition::AboveArmrest, SvenPosition::Top, Direction::Up, 15000),
    (SvenPosition::Standing, SvenPosition::Armrest, Direction::Down, 10800),
    (SvenPosition::Standing, SvenPosition::AboveArmrest, Direction::Down, 9900),
    (SvenPosition::Standing, SvenPosition::Bottom, Direction::Down, 15000),
    (SvenPosition::Standing, SvenPosition::Top, Direction::Up, 5000),
    (SvenPosition::Bottom, SvenPosition::Armrest, Direction::Up, 4300),
    (SvenPosition::Bottom, SvenPosition::AboveArmrest, Direction::Up, 5200),
    (SvenPosition::Bottom, SvenPosition::Standing, Direction::Up, 15000),
    (SvenPosition::Bottom, SvenPosition::Top, Direction::Up, 20000),
];

/// The first row of `TRANSITIONS`, from row `start` on, that holds the move
/// from `from` to `to`.
pub open spec fn transition_row_from(start: int, from: SvenPosition, to: SvenPosition) -> Option<
    int,
>
    decreases 21 - start,
{
    if start < 0 || start >= 21 {
        None
    } else if TRANSITIONS[start].0 == from && TRANSITIONS[start].1 == to {
        Some(start)
    } else {
        transition_row_from(start + 1, from, to)
    }
}

/// The pulse that takes the desk from one named position to another, where
/// `TRANSITIONS` holds one.
pub open spec fn transition(from: SvenPosition, to: SvenPosition) -> Option<Pulse> {
    match transition_row_from(0, from, to) {
        Some(row) => Some(
            Pulse { direction: TRANSITIONS[row].2, duration_ms: TRANSITIONS[row].3 },
        ),
        None => None,
    }
}

/// The pulses of a move from one named position to another: the one that
/// `transition` gives, or none.
pub open spec fn transition_plan(from: SvenPosition, to: SvenPosition) -> Seq<Pulse> {
    match transition(from, to) {
        Some(pulse) => seq![pulse],
        None => Seq::empty(),
    }
}

/// The pulses of a move to the named position `target`. From `Custom` the
/// desk is first brought to the top, and moves on from there.
pub open spec fn position_plan(current: SvenPosition, target: SvenPosition) -> Seq<Pulse> {
    if current == SvenPosition::Custom {
        seq![pulse_up(HOMING_MS)] + transition_plan(SvenPosition::Top, target)
    } else {
        transition_plan(current, target)
    }
}

/// The estimate after a move to the named position `target`: the desk is
/// taken to be there, whatever the estimate was before.
pub open spec fn after_position(state: SvenState, target: SvenPosition) -> SvenState {
    at_position(target)
}

/// The pulses of a move by `distance_mm` in `direction`: as long as a
/// measured pulse fits into what is left of the distance, the longest such
/// pulse.
pub open spec fn relative_plan(direction: Direction, distance_mm: nat) -> Seq<Pulse>
    decreases distance_mm,
    via relative_plan_decreases
{
    match longest_fit(distance_mm) {
        Some(row) => seq![Pulse { direction, duration_ms: MS_TO_MM[row].0 }] + relative_plan(
            direction,
            (distance_mm - MS_TO_MM[row].1) as nat,
        ),
        None => Seq::empty(),
    }
}

#[via_fn]
proof fn relative_plan_decreases(direction: Direction, distance_mm: nat) {
    lemma_longest_fit(distance_mm);
}

/// The millimetres that the pulses of a move by `distance_mm` cover.
pub open spec fn relative_covered(distance_mm: nat) -> nat
    decreases distance_mm,
    via relative_covered_decreases
{
    match longest_fit(distance_mm) {
        Some(row) => MS_TO_MM[row].1 as nat + relative_covered(
            (distance_mm - MS_TO_MM[row].1) as nat,
        ),
        None => 0,
    }
}

#[via_fn]
proof fn relative_covered_decreases(distance_mm: nat) {
    lemma_longest_fit(distance_mm);
}

/// The estimate after a move by `distance_mm` in `direction`. Where no
/// measured pulse fits into the distance nothing moves and the estimate
/// stays; otherwise the height changes by what the pulses cover, up to the
/// limit of travel, and the position follows the height.
pub open spec fn after_relative(state: SvenState, direction: Direction, distance_mm: nat)
    -> SvenState {
    if longest_fit(distance_mm) is None {
        state
    } else {
        at_height(moved(state.height_mm, direction, relative_covered(distance_mm)))
    }
}

/// The pulses of a move to the height `target_mm`. A height beyond a limit
/// of travel is a move to the named position at that limit.
pub open spec fn height_plan(state: SvenState, target_mm: u32) -> Seq<Pulse> {
    if target_mm == state.height_mm {
        Seq::empty()
    } else if target_mm < MIN_HEIGHT_MM {
        position_plan(state.position, SvenPosition::Bottom)
    } else if target_mm > MAX_HEIGHT_MM {
        position_plan(state.position, SvenPosition::Top)
    } else if target_mm > state.height_mm {
        relative_plan(Direction::Up, (target_mm - state.height_mm) as nat)
    } else {
        relative_plan(Direction::Down, (state.height_mm - target_mm) as nat)
    }
}

/// The estimate after a move to the height `target_mm`.
pub open spec fn after_height(state: SvenState, target_mm: u32) -> SvenState {
    if target_mm == state.height_mm {
        state
    } else if target_mm < MIN_HEIGHT_MM {
        at_position(SvenPosition::Bottom)
    } else if target_mm > MAX_HEIGHT_MM {
        at_position(SvenPosition::Top)
    } else if target_mm > state.height_mm {
        after_relative(state, Direction::Up, (target_mm - state.height_mm) as nat)
    } else {
        after_relative(state, Direction::Down, (state.height_mm - target_mm) as nat)
    }
}

/// There is a pulse for every move between two different named positions,
/// and for the move from the top to the top; there is none from or to
/// `Custom`. The pulse goes up exactly when the move ends no lower than it
/// starts.
pub proof fn lemma_transition(from: SvenPosition, to: SvenPosition)
    ensures
        transition(from, to) is Some <==> from != SvenPosition::Custom && to
            != SvenPosition::Custom && (from != to || from == SvenPosition::Top),
        transition(from, to) matches Some(pulse) ==> (pulse.direction == Direction::Up
            <==> height_of(from) <= height_of(to)),
        position_plan(from, to).len() <= 2,
{
    reveal_with_fuel(transition_row_from, 22);
}

/// The pulse of a measured row's duration moves the desk by that row's
/// displacement.
pub proof fn lemma_row_displacement(row: int)
    requires
        0 <= row < 10,
    ensures
        displacement_of(MS_TO_MM[row].0 as nat) == MS_TO_MM[row].1,
{
}

/// Moving twice in one direction ends where one move by the sum ends.
pub proof fn lemma_moved_twice(height_mm: u32, direction: Direction, first_mm: nat, then_mm: nat)
    ensures
        moved(moved(height_mm, direction, first_mm), direction, then_mm) == moved(
            height_mm,
            direction,
            first_mm + then_mm,
        ),
{
}

/// No move takes the desk beyond a limit of travel from within them; a move
/// up ends at or below the upper limit and a move down at or above the lower
/// limit wherever it starts.
pub proof fn lemma_moved_within_limits(height_mm: u32, direction: Direction, mm: nat)
    ensures
        MIN_HEIGHT_MM <= height_mm <= MAX_HEIGHT_MM ==> MIN_HEIGHT_MM <= moved(
            height_mm,
            direction,
            mm,
        ) <= MAX_HEIGHT_MM,
        direction == Direction::Up ==> moved(height_mm, direction, mm) <= MAX_HEIGHT_MM,
        direction == Direction::Down ==> moved(height_mm, direction, mm) >= MIN_HEIGHT_MM,
{
}

/// A sequence of pulses leaves the height within the limits of travel if it
/// started there, and so does each part of the sequence carried out so far.
pub proof fn lemma_pulses_keep_limits(state: SvenState, pulses: Seq<Pulse>)
    requires
        state.within_limits(),
    ensures
        after_pulses(state, pulses).within_limits(),
        forall|done: int|
            0 <= done <= pulses.len() ==> (#[trigger] after_pulses(
                state,
                pulses.take(done),
            )).within_limits(),
{
    assert forall|done: int| 0 <= done <= pulses.len() implies (#[trigger] after_pulses(
        state,
        pulses.take(done),
    )).within_limits() by {
        lemma_after_pulses_within(state, pulses.take(done));
    }
    lemma_after_pulses_within(state, pulses);
}

/// A sequence of pulses leaves the height within the limits of travel if it
/// started there.
proof fn lemma_after_pulses_within(state: SvenState, pulses: Seq<Pulse>)
    requires
        state.within_limits(),
    ensures
        after_pulses(state, pulses).within_limits(),
    decreases pulses.len(),
{
    if pulses.len() > 0 {
        lemma_after_pulses_within(after_pulse(state, pulses.first()), pulses.drop_first());
    }
}

/// Moving to a named position a second time changes nothing: the desk is
/// taken to be at that position's height after the first move and after the
/// second.
pub proof fn lemma_position_move_repeats(state: SvenState, target: SvenPosition)
    ensures
        after_position(after_position(state, target), target) == after_position(state, target),
        after_position(after_position(state, target), target).height_mm == height_of(target),
        after_position(state, target).within_limits(),
{
}

/// A move by no distance asks for no pulse and leaves the estimate as it is.
pub proof fn lemma_relative_zero(state: SvenState, direction: Direction)
    ensures
        relative_plan(direction, 0) == Seq::<Pulse>::empty(),
        after_relative(state, direction, 0) == state,
{
    lemma_longest_fit(0);
}

/// A move by a distance never goes further than asked, and falls short by
/// less than the smallest measured displacement.
pub proof fn lemma_relative_covered(distance_mm: nat)
    ensures
        relative_covered(distance_mm) <= distance_mm < relative_covered(distance_mm)
            + MS_TO_MM[0].1,
    decreases distance_mm,
{
    lemma_longest_fit(distance_mm);
    match longest_fit(distance_mm) {
        Some(row) => {
            lemma_relative_covered((distance_mm - MS_TO_MM[row].1) as nat);
        },
        None => {},
    }
}

/// A move by a distance asks for a pulse exactly when a measured pulse fits
/// into the distance. Each of its pulses goes in the direction asked for and
/// lasts as long as one of the measured rows.
pub proof fn lemma_relative_plan_pulses(direction: Direction, distance_mm: nat)
    ensures
        relative_plan(direction, distance_mm).len() > 0 <==> distance_mm >= MS_TO_MM[0].1,
        forall|at: int|
            0 <= at < relative_plan(direction, distance_mm).len() ==> {
                let pulse = #[trigger] relative_plan(direction, distance_mm)[at];
                &&& pulse.direction == direction
                &&& exists|row: int| 0 <= row < 10 && pulse.duration_ms == MS_TO_MM[row].0
            },
    decreases distance_mm,
{
    lemma_longest_fit(distance_mm);
    match longest_fit(distance_mm) {
        Some(row) => {
            let rest = relative_plan(direction, (distance_mm - MS_TO_MM[row].1) as nat);
            lemma_relative_plan_pulses(direction, (distance_mm - MS_TO_MM[row].1) as nat);
            assert forall|at: int|
                0 <= at < relative_plan(direction, distance_mm).len() implies {
                let pulse = #[trigger] relative_plan(direction, distance_mm)[at];
                &&& pulse.direction == direction
                &&& exists|row: int| 0 <= row < 10 && pulse.duration_ms == MS_TO_MM[row].0
            } by {
                if at > 0 {
                    assert(relative_plan(direction, distance_mm)[at] == rest[at - 1]);
                }
            }
        },
        None => {},
    }
}

/// The pulses of a move by a distance never get longer from one to the next.
pub proof fn lemma_relative_plan_descends(direction: Direction, distance_mm: nat)
    ensures
        forall|earlier: int, later: int|
            0 <= earlier <= later < relative_plan(direction, distance_mm).len()
                ==> relative_plan(direction, distance_mm)[earlier].duration_ms >= relative_plan(
                direction,
                distance_mm,
            )[later].duration_ms,
    decreases distance_mm,
{
    lemma_relative_plan_bounded(direction, distance_mm);
    lemma_longest_fit(distance_mm);
    match longest_fit(distance_mm) {
        Some(row) => {
            let left = (distance_mm - MS_TO_MM[row].1) as nat;
            let plan = relative_plan(direction, distance_mm);
            let rest = relative_plan(direction, left);
            lemma_relative_plan_descends(direction, left);
            assert forall|earlier: int, later: int|
                0 <= earlier <= later < plan.len() implies plan[earlier].duration_ms
                >= plan[later].duration_ms by {
                if earlier > 0 {
                    assert(plan[earlier] == rest[earlier - 1]);
                    assert(plan[later] == rest[later - 1]);
                }
            }
        },
        None => {},
    }
}

/// No pulse of a move by a distance is longer than the longest measured
/// pulse that fits into the distance.
proof fn lemma_relative_plan_bounded(direction: Direction, distance_mm: nat)
    ensures
        forall|at: int|
            0 <= at < relative_plan(direction, distance_mm).len() ==> {
                &&& longest_fit(distance_mm) is Some
                &&& (#[trigger] relative_plan(direction, distance_mm)[at]).duration_ms
                    <= MS_TO_MM[longest_fit(distance_mm).unwrap()].0
            },
    decreases distance_mm,
{
    lemma_longest_fit(distance_mm);
    match longest_fit(distance_mm) {
        Some(row) => {
            let left = (distance_mm - MS_TO_MM[row].1) as nat;
            let plan = relative_plan(direction, distance_mm);
            let rest = relative_plan(direction, left);
            lemma_relative_plan_bounded(direction, left);
            lemma_longest_fit(left);
            assert forall|at: int| 0 <= at < plan.len() implies (#[trigger] plan[at]).duration_ms
                <= MS_TO_MM[row].0 by {
                if at > 0 {
                    assert(plan[at] == rest[at - 1]);
                    let next = longest_fit(left).unwrap();
                    assert(fits(next, distance_mm));
                    if next < row {
                        lemma_pulse_table(next, row);
                    }
                }
            }
        },
        None => {},
    }
}

/// A move by a distance leaves the estimate that its pulses leave when they
/// are carried out one after the other.
pub proof fn lemma_relative_is_pulse_by_pulse(
    state: SvenState,
    direction: Direction,
    distance_mm: nat,
)
    ensures
        after_pulses(state, relative_plan(direction, distance_mm)) == after_relative(
            state,
            direction,
            distance_mm,
        ),
    decreases distance_mm,
{
    lemma_longest_fit(distance_mm);
    match longest_fit(distance_mm) {
        Some(row) => {
            let left = (distance_mm - MS_TO_MM[row].1) as nat;
            let first = Pulse { direction, duration_ms: MS_TO_MM[row].0 };
            let plan = relative_plan(direction, distance_mm);
            assert(plan.first() == first);
            assert(plan.drop_first() == relative_plan(direction, left));
            lemma_row_displacement(row);
            lemma_relative_is_pulse_by_pulse(after_pulse(state, first), direction, left);
            lemma_moved_twice(
                state.height_mm,
                direction,
                MS_TO_MM[row].1 as nat,
                relative_covered(left),
            );
            lemma_longest_fit(left);
        },
        None => {},
    }
}

/// A move by a distance keeps the height within the limits of travel if it
/// was there; a move up never ends above the upper limit from a height at or
/// below it, however far it is asked to go.
pub proof fn lemma_relative_keeps_limits(state: SvenState, direction: Direction, distance_mm: nat)
    ensures
        state.within_limits() ==> after_relative(state, direction, distance_mm).within_limits(),
        state.height_mm <= MAX_HEIGHT_MM ==> after_relative(
            state,
            Direction::Up,
            distance_mm,
        ).height_mm <= MAX_HEIGHT_MM,
        state.height_mm >= MIN_HEIGHT_MM ==> after_relative(
            state,
            Direction::Down,
            distance_mm,
        ).height_mm >= MIN_HEIGHT_MM,
{
}

/// A move to the height the desk is taken to be at asks for no pulse and
/// leaves the estimate as it is.
pub proof fn lemma_height_move_to_self(state: SvenState)
    ensures
        height_plan(state, state.height_mm) == Seq::<Pulse>::empty(),
        after_height(state, state.height_mm) == state,
{
}

/// A move to a height within the limits of travel ends on the side of the
/// target from which it set out, less than the smallest measured
/// displacement away from it.
pub proof fn lemma_height_reached(state: SvenState, target_mm: u32)
    requires
        MIN_HEIGHT_MM <= target_mm <= MAX_HEIGHT_MM,
    ensures
        state.height_mm <= target_mm ==> target_mm - MS_TO_MM[0].1 < after_height(
            state,
            target_mm,
        ).height_mm <= target_mm,
        state.height_mm >= target_mm ==> target_mm <= after_height(state, target_mm).height_mm
            < target_mm + MS_TO_MM[0].1,
{
    if target_mm > state.height_mm {
        lemma_relative_covered((target_mm - state.height_mm) as nat);
        lemma_longest_fit((target_mm - state.height_mm) as nat);
    } else if target_mm < state.height_mm {
        lemma_relative_covered((state.height_mm - target_mm) as nat);
        lemma_longest_fit((state.height_mm - target_mm) as nat);
    }
}

/// A move to a height keeps the height within the limits of travel if it was
/// there, and a height beyond a limit brings the desk to that limit.
pub proof fn lemma_height_keeps_limits(state: SvenState, target_mm: u32)
    ensures
        state.within_limits() ==> after_height(state, target_mm).within_limits(),
        target_mm < MIN_HEIGHT_MM && target_mm != state.height_mm ==> after_height(
            state,
            target_mm,
        ) == at_position(SvenPosition::Bottom),
        target_mm > MAX_HEIGHT_MM && target_mm != state.height_mm ==> after_height(
            state,
            target_mm,
        ) == at_position(SvenPosition::Top),
{
}

} // verus!
