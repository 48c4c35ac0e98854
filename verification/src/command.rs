//! Commands as they reach the controller from outside, and what each of them
//! asks of it.

use vstd::prelude::*;
use crate::calibration::{MAX_HEIGHT_MM, MIN_HEIGHT_MM};
use crate::gpio::{pulse_down, pulse_up, Direction, Pulse};
use crate::motion::{
    after_height, after_position, after_pulse, after_relative, height_plan,
    lemma_height_keeps_limits, lemma_position_move_repeats, lemma_relative_keeps_limits,
    position_plan, relative_plan,
};
use crate::sven_state::{position_of_code, SvenPosition, SvenState};

verus! {

/// What a command asks for. The command's value is a duration in
/// milliseconds, a distance or a height in millimetres, or the code of a
/// named position.
#[derive(Debug, Copy, Clone, PartialEq, Eq, Structural)]
pub enum SvenCommand {
    UpDuration,
    DownDuration,
    UpRelative,
    DownRelative,
    AbsoluteHeight,
    Position,
}

/// A command together with its value.
#[derive(Debug, Copy, Clone, PartialEq, Eq, Structural)]
pub struct DeskCommand {
    pub command: SvenCommand,
    pub value: u32,
}

/// Milliseconds for which the desk is left to come to rest after each pulse
/// of a move by a distance.
pub const SETTLE_MS: u32 = 1000;

/// The position that a `Position` command with this value asks for:
/// `Armrest` where the value is no position's code.
pub open spec fn commanded_position(value: u32) -> SvenPosition {
    match position_of_code(value) {
        Some(position) => position,
        None => SvenPosition::Armrest,
    }
}

/// The pulses that a command asks for.
pub open spec fn command_plan(state: SvenState, command: DeskCommand) -> Seq<Pulse> {
    match command.command {
        SvenCommand::UpDuration => seq![pulse_up(command.value)],
        SvenCommand::DownDuration => seq![pulse_down(command.value)],
        SvenCommand::UpRelative => relative_plan(Direction::Up, command.value as nat),
        SvenCommand::DownRelative => relative_plan(Direction::Down, command.value as nat),
        SvenCommand::AbsoluteHeight => height_plan(state, command.value),
        SvenCommand::Position => position_plan(state.position, commanded_position(command.value)),
    }
}

/// The estimate that a command leaves.
pub open spec fn after_command(state: SvenState, command: DeskCommand) -> SvenState {
    match command.command {
        SvenCommand::UpDuration => after_pulse(state, pulse_up(command.value)),
        SvenCommand::DownDuration => after_pulse(state, pulse_down(command.value)),
        SvenCommand::UpRelative => after_relative(state, Direction::Up, command.value as nat),
        SvenCommand::DownRelative => after_relative(state, Direction::Down, command.value as nat),
        SvenCommand::AbsoluteHeight => after_height(state, command.value),
        SvenCommand::Position => after_position(state, commanded_position(command.value)),
    }
}

/// Milliseconds for which the desk is to rest after each pulse of a command
/// that reaches the controller in `state`: `SETTLE_MS` where the command is
/// carried out as a move by a distance, nothing where it is a single pulse
/// or a move to a named position.
pub open spec fn rest_after_pulse(state: SvenState, command: DeskCommand) -> u32 {
    match command.command {
        SvenCommand::UpRelative | SvenCommand::DownRelative => SETTLE_MS,
        SvenCommand::AbsoluteHeight => if command.value != state.height_mm && MIN_HEIGHT_MM
            <= command.value <= MAX_HEIGHT_MM {
            SETTLE_MS
        } else {
            0
        },
        _ => 0,
    }
}

/// The estimate that a sequence of commands leaves, each carried out on what
/// the one before it left.
pub open spec fn after_commands(state: SvenState, commands: Seq<DeskCommand>) -> SvenState
    decreases commands.len(),
{
    if commands.len() == 0 {
        state
    } else {
        after_commands(after_command(state, commands.first()), commands.drop_first())
    }
}

/// Carries out one command on the controller and returns the pulses that it
/// asks for.
pub fn handle_desk_command(command: &DeskCommand, sven_state: &mut SvenState) -> (pulses: Vec<
    Pulse,
>)
    ensures
        pulses@ == command_plan(*old(sven_state), *command),
        *final(sven_state) == after_command(*old(sven_state), *command),
        old(sven_state).within_limits() ==> final(sven_state).within_limits(),
{
    match command.command {
        SvenCommand::UpDuration => {
            let pulse = sven_state.move_up(command.value);
            vec![pulse]
        },
        SvenCommand::DownDuration => {
            let pulse = sven_state.move_down(command.value);
            vec![pulse]
        },
        SvenCommand::UpRelative => sven_state.move_up_relative(command.value),
        SvenCommand::DownRelative => sven_state.move_down_relative(command.value),
        SvenCommand::AbsoluteHeight => sven_state.move_to_height(command.value),
        SvenCommand::Position => {
            let sven_position = match SvenPosition::try_from(command.value) {
                Ok(position) => position,
                Err(_) => SvenPosition::Armrest,
            };
            sven_state.move_to_position(sven_position)
        },
    }
}

/// Milliseconds for which the caller is to let the desk rest after each
/// pulse of `command`. `sven_state` is the estimate before the command is
/// carried out.
pub fn settle_ms(sven_state: &SvenState, command: &DeskCommand) -> (ms: u32)
    ensures
        ms == rest_after_pulse(*sven_state, *command),
{
    match command.command {
        SvenCommand::UpRelative | SvenCommand::DownRelative => SETTLE_MS,
        SvenCommand::AbsoluteHeight => {
            if command.value != sven_state.height_mm && MIN_HEIGHT_MM <= command.value
                && command.value <= MAX_HEIGHT_MM {
                SETTLE_MS
            } else {
                0
            }
        },
        _ => 0,
    }
}

/// No command takes the height beyond a limit of travel from within them.
pub proof fn lemma_command_keeps_limits(state: SvenState, command: DeskCommand)
    requires
        state.within_limits(),
    ensures
        after_command(state, command).within_limits(),
{
    lemma_relative_keeps_limits(state, Direction::Up, command.value as nat);
    lemma_relative_keeps_limits(state, Direction::Down, command.value as nat);
    lemma_height_keeps_limits(state, command.value);
    lemma_position_move_repeats(state, commanded_position(command.value));
}

/// Whatever commands are carried out, in whatever order, the height stays
/// within the limits of travel once it is there.
pub proof fn lemma_commands_keep_limits(state: SvenState, commands: Seq<DeskCommand>)
    requires
        state.within_limits(),
    ensures
        after_commands(state, commands).within_limits(),
    decreases commands.len(),
{
    if commands.len() > 0 {
        lemma_command_keeps_limits(state, commands.first());
        lemma_commands_keep_limits(after_command(state, commands.first()), commands.drop_first());
    }
}

} // verus!
