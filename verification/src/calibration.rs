//! Calibration data of the desk: the height of each named position and the
//! distance the desk travels during a pulse of a given length.
//!
//! The motor accelerates and brakes, so the distance is not proportional to
//! the pulse length. For pulses of up to ten seconds it is taken from measured
//! rows; beyond that it is extrapolated at a fixed rate, which is an
//! approximation and has not been measured.

use vstd::prelude::*;
use crate::sven_state::SvenPosition;

verus! {

/// Lowest height the desk can reach, in millimetres.
pub const MIN_HEIGHT_MM: u32 = 622;

/// Greatest height the desk can reach, in millimetres.
pub const MAX_HEIGHT_MM: u32 = 1274;

/// The desk is taken to be at a named position when its height is no more
/// than this many millimetres away from that position's height.
pub const POS_THRESH: u32 = 5;

/// Millimetres assumed for each full second of a pulse beyond the last
/// measured row.
pub const EXTRA_MM_PER_SECOND: u32 = 38;

/// Height of each named position in millimetres, lowest first.
pub const POSITIONS_MM: [(SvenPosition, u32); 5] = [
    (SvenPosition::Bottom, MIN_HEIGHT_MM),
    (SvenPosition::Armrest, 750),
    (SvenPosition::AboveArmrest, 795),
    (SvenPosition::Standing, 1140),
    (SvenPosition::Top, MAX_HEIGHT_MM),
];

/// Measured travel: a pulse length in milliseconds and the millimetres the
/// desk moves during it, one row per whole second from one to ten.
pub const MS_TO_MM: [(u32, u32); 10] = [
    (1000, 9),
    (2000, 48),
    (3000, 82),
    (4000, 119),
    (5000, 160),
    (6000, 194),
    (7000, 234),
    (8000, 272),
    (9000, 310),
    (10000, 347),
];

/// Height of a named position in millimetres. `Custom` names no height and
/// is given the lowest one.
pub open spec fn height_of(position: SvenPosition) -> u32 {
    match position {
        SvenPosition::Bottom => 622,
        SvenPosition::Armrest => 750,
        SvenPosition::AboveArmrest => 795,
        SvenPosition::Standing => 1140,
        SvenPosition::Top => 1274,
        SvenPosition::Custom => 622,
    }
}

/// Whether `height_mm` is no more than the tolerance away from `mark_mm`.
pub open spec fn within_tolerance(height_mm: int, mark_mm: int) -> bool {
    mark_mm - POS_THRESH <= height_mm <= mark_mm + POS_THRESH
}

/// Whether `height_mm` lies within the tolerance around `position`'s height.
pub open spec fn near(height_mm: int, position: SvenPosition) -> bool {
    within_tolerance(height_mm, height_of(position) as int)
}

/// The named position that `height_mm` lies at, `Custom` when it lies at none.
pub open spec fn position_near(height_mm: int) -> SvenPosition {
    if near(height_mm, SvenPosition::Bottom) {
        SvenPosition::Bottom
    } else if near(height_mm, SvenPosition::Armrest) {
        SvenPosition::Armrest
    } else if near(height_mm, SvenPosition::AboveArmrest) {
        SvenPosition::AboveArmrest
    } else if near(height_mm, SvenPosition::Standing) {
        SvenPosition::Standing
    } else if near(height_mm, SvenPosition::Top) {
        SvenPosition::Top
    } else {
        SvenPosition::Custom
    }
}

/// Millimetres the desk travels during a pulse of `duration_ms`.
///
/// Only the whole seconds of the duration count. One to ten seconds are read
/// from the measured rows, each further second adds `EXTRA_MM_PER_SECOND`,
/// and a pulse of less than a second moves nothing.
pub open spec fn displacement_of(duration_ms: nat) -> nat {
    let seconds = duration_ms / 1000;
    if seconds > 10 {
        (MS_TO_MM[9].1 + EXTRA_MM_PER_SECOND * (seconds - 10)) as nat
    } else if seconds >= 1 {
        MS_TO_MM[seconds - 1].1 as nat
    } else {
        0
    }
}

/// Whether the measured row `row` moves the desk by no more than `distance_mm`.
pub open spec fn fits(row: int, distance_mm: nat) -> bool {
    0 <= row < 10 && MS_TO_MM[row].1 <= distance_mm
}

/// The first measured row that fits `distance_mm`, looking from row `from`
/// down to the first row.
pub open spec fn first_fit_from(from: int, distance_mm: nat) -> Option<int>
    decreases from + 1,
{
    if from < 0 {
        None
    } else if fits(from, distance_mm) {
        Some(from)
    } else {
        first_fit_from(from - 1, distance_mm)
    }
}

/// The longest measured pulse that moves the desk by no more than
/// `distance_mm`, as a row of `MS_TO_MM`.
pub open spec fn longest_fit(distance_mm: nat) -> Option<int> {
    first_fit_from(9, distance_mm)
}

/// The named heights rise in the order Bottom, Armrest, AboveArmrest,
/// Standing, Top; Bottom and Top are the limits of travel; and
/// `POSITIONS_MM` holds `height_of` row by row, with no row for `Custom`.
pub proof fn lemma_positions_table()
    ensures
        height_of(SvenPosition::Bottom) == MIN_HEIGHT_MM,
        height_of(SvenPosition::Top) == MAX_HEIGHT_MM,
        height_of(SvenPosition::Bottom) < height_of(SvenPosition::Armrest) < height_of(
            SvenPosition::AboveArmrest,
        ) < height_of(SvenPosition::Standing) < height_of(SvenPosition::Top),
        forall|row: int|
            0 <= row < 5 ==> (#[trigger] POSITIONS_MM[row]).1 == height_of(POSITIONS_MM[row].0),
        forall|row: int| 0 <= row < 5 ==> (#[trigger] POSITIONS_MM[row]).0 != SvenPosition::Custom,
        forall|row: int, other: int|
            0 <= row < other < 5 ==> (#[trigger] POSITIONS_MM[row]).1 < (
            #[trigger] POSITIONS_MM[other]).1,
{
}

/// Row `row` of the measured table is the pulse of `row + 1` seconds, and
/// both the durations and the displacements rise strictly from row to row.
pub proof fn lemma_pulse_table(row: int, other: int)
    requires
        0 <= row < other < 10,
    ensures
        MS_TO_MM[row].0 == 1000 * (row + 1),
        MS_TO_MM[other].0 == 1000 * (other + 1),
        MS_TO_MM[row].0 < MS_TO_MM[other].0,
        0 < MS_TO_MM[row].1 < MS_TO_MM[other].1,
{
}

/// A longer pulse never moves the desk less than a shorter one.
pub proof fn lemma_displacement_monotone(shorter_ms: nat, longer_ms: nat)
    requires
        shorter_ms <= longer_ms,
    ensures
        displacement_of(shorter_ms) <= displacement_of(longer_ms),
{
}

/// Every height lies at no more than one named position: `position_near`
/// gives a named position exactly when the height is within tolerance of it,
/// and `Custom` exactly when it is within tolerance of none.
pub proof fn lemma_position_near(height_mm: int, position: SvenPosition)
    ensures
        position != SvenPosition::Custom ==> (position_near(height_mm) == position <==> near(
            height_mm,
            position,
        )),
        position_near(height_mm) == SvenPosition::Custom <==> forall|named: SvenPosition|
            named != SvenPosition::Custom ==> !near(height_mm, named),
        position != SvenPosition::Custom ==> position_near(height_of(position) as int) == position,
{
}

/// What `first_fit_from` finds fits, and no row between it and `from` does;
/// when it finds nothing, no row up to `from` fits.
pub proof fn lemma_first_fit_from(from: int, distance_mm: nat)
    requires
        from < 10,
    ensures
        match first_fit_from(from, distance_mm) {
            Some(row) => row <= from && fits(row, distance_mm) && forall|other: int|
                row < other <= from ==> !fits(other, distance_mm),
            None => forall|other: int| other <= from ==> !fits(other, distance_mm),
        },
    decreases from + 1,
{
    if from >= 0 && !fits(from, distance_mm) {
        lemma_first_fit_from(from - 1, distance_mm);
    }
}

/// `longest_fit` is the row with the greatest displacement among those that
/// fit; it finds none exactly when the distance is less than the smallest
/// measured displacement.
pub proof fn lemma_longest_fit(distance_mm: nat)
    ensures
        match longest_fit(distance_mm) {
            Some(row) => fits(row, distance_mm) && forall|other: int|
                fits(other, distance_mm) ==> other <= row,
            None => distance_mm < MS_TO_MM[0].1,
        },
        longest_fit(distance_mm) is Some <==> distance_mm >= MS_TO_MM[0].1,
{
    lemma_first_fit_from(9, distance_mm);
    assert(fits(0, distance_mm) <==> distance_mm >= MS_TO_MM[0].1);
}

} // verus!
