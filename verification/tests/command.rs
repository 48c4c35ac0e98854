use sven_esp32::calibration::{MAX_HEIGHT_MM, MIN_HEIGHT_MM};
use sven_esp32::command::{handle_desk_command, settle_ms, DeskCommand, SvenCommand, SETTLE_MS};
use sven_esp32::gpio::Pulse;
use sven_esp32::sven_state::{SvenPosition, SvenState};

fn armrest() -> SvenState {
    SvenState { height_mm: 750, position: SvenPosition::Armrest }
}

#[test]
fn command_up_duration() {
    let mut sven_state = armrest();
    let command = DeskCommand { command: SvenCommand::UpDuration, value: 2500 };
    assert_eq!(handle_desk_command(&command, &mut sven_state), vec![Pulse::up(2500)]);
    assert_eq!(sven_state, SvenState { height_mm: 798, position: SvenPosition::AboveArmrest });
}

#[test]
fn command_down_duration() {
    let mut sven_state = armrest();
    let command = DeskCommand { command: SvenCommand::DownDuration, value: 3000 };
    assert_eq!(handle_desk_command(&command, &mut sven_state), vec![Pulse::down(3000)]);
    assert_eq!(sven_state, SvenState { height_mm: 668, position: SvenPosition::Custom });
}

#[test]
fn command_up_relative() {
    let mut sven_state = armrest();
    let command = DeskCommand { command: SvenCommand::UpRelative, value: 50 };
    assert_eq!(handle_desk_command(&command, &mut sven_state), vec![Pulse::up(2000)]);
    assert_eq!(sven_state, SvenState { height_mm: 798, position: SvenPosition::AboveArmrest });
}

#[test]
fn command_down_relative() {
    let mut sven_state = armrest();
    let command = DeskCommand { command: SvenCommand::DownRelative, value: 20 };
    assert_eq!(
        handle_desk_command(&command, &mut sven_state),
        vec![Pulse::down(1000), Pulse::down(1000)]
    );
    assert_eq!(sven_state, SvenState { height_mm: 732, position: SvenPosition::Custom });
}

#[test]
fn command_absolute_height() {
    let mut sven_state = armrest();
    let command = DeskCommand { command: SvenCommand::AbsoluteHeight, value: 1140 };
    let pulses = handle_desk_command(&command, &mut sven_state);
    assert_eq!(pulses, vec![Pulse::up(10000), Pulse::up(1000), Pulse::up(1000), Pulse::up(1000), Pulse::up(1000)]);
    assert_eq!(sven_state, SvenState { height_mm: 750 + 347 + 36, position: SvenPosition::Custom });
}

#[test]
fn command_absolute_height_out_of_range() {
    let mut sven_state = armrest();
    let low = DeskCommand { command: SvenCommand::AbsoluteHeight, value: 0 };
    assert_eq!(handle_desk_command(&low, &mut sven_state), vec![Pulse::down(5000)]);
    assert_eq!(sven_state, SvenState { height_mm: MIN_HEIGHT_MM, position: SvenPosition::Bottom });
    let high = DeskCommand { command: SvenCommand::AbsoluteHeight, value: u32::MAX };
    assert_eq!(handle_desk_command(&high, &mut sven_state), vec![Pulse::up(20000)]);
    assert_eq!(sven_state, SvenState { height_mm: MAX_HEIGHT_MM, position: SvenPosition::Top });
}

#[test]
fn command_position() {
    let mut sven_state = armrest();
    let command = DeskCommand { command: SvenCommand::Position, value: 4 };
    assert_eq!(handle_desk_command(&command, &mut sven_state), vec![Pulse::up(11000)]);
    assert_eq!(sven_state, SvenState { height_mm: 1140, position: SvenPosition::Standing });
}

#[test]
fn command_position_with_an_unknown_code_is_armrest() {
    let mut sven_state = SvenState { height_mm: 1274, position: SvenPosition::Top };
    let command = DeskCommand { command: SvenCommand::Position, value: 6 };
    assert_eq!(handle_desk_command(&command, &mut sven_state), vec![Pulse::down(14800)]);
    assert_eq!(sven_state, armrest());
}

#[test]
fn commands_keep_the_height_within_the_limits() {
    let kinds = [
        SvenCommand::UpDuration,
        SvenCommand::DownDuration,
        SvenCommand::UpRelative,
        SvenCommand::DownRelative,
        SvenCommand::AbsoluteHeight,
        SvenCommand::Position,
    ];
    let values = [0, 1, 5, 9, 100, 621, 622, 1000, 1274, 1275, 4300, 20000, 100000];
    let (mut sven_state, _) = SvenState::new(SvenPosition::Standing);
    let mut step = 0usize;
    while step < 2000 {
        let command = DeskCommand {
            command: kinds[(step * 7 + step / 6) % kinds.len()],
            value: values[(step * 5 + step / 13) % values.len()],
        };
        handle_desk_command(&command, &mut sven_state);
        assert!(MIN_HEIGHT_MM <= sven_state.height_mm && sven_state.height_mm <= MAX_HEIGHT_MM);
        step += 1;
    }
}

#[test]
fn rest_after_the_pulses_of_a_move_by_distance() {
    assert_eq!(SETTLE_MS, 1000);
    for value in [0, 8, 100, u32::MAX] {
        let up = DeskCommand { command: SvenCommand::UpRelative, value };
        assert_eq!(settle_ms(&armrest(), &up), 1000);
        let down = DeskCommand { command: SvenCommand::DownRelative, value };
        assert_eq!(settle_ms(&armrest(), &down), 1000);
    }
}

#[test]
fn rest_after_the_pulses_of_a_move_to_a_height_within_the_limits() {
    for value in [MIN_HEIGHT_MM, 749, 751, 1000, MAX_HEIGHT_MM] {
        let command = DeskCommand { command: SvenCommand::AbsoluteHeight, value };
        assert_eq!(settle_ms(&armrest(), &command), 1000);
    }
}

#[test]
fn no_rest_after_a_move_to_a_height_beyond_the_limits() {
    for value in [0, MIN_HEIGHT_MM - 1, MAX_HEIGHT_MM + 1, u32::MAX] {
        let command = DeskCommand { command: SvenCommand::AbsoluteHeight, value };
        assert_eq!(settle_ms(&armrest(), &command), 0);
    }
}

#[test]
fn no_rest_after_a_move_to_the_height_the_desk_is_at() {
    let command = DeskCommand { command: SvenCommand::AbsoluteHeight, value: 750 };
    assert_eq!(settle_ms(&armrest(), &command), 0);
}

#[test]
fn no_rest_after_a_single_pulse_or_a_move_to_a_position() {
    for value in [0, 2, 750, 5000] {
        for kind in [SvenCommand::UpDuration, SvenCommand::DownDuration, SvenCommand::Position] {
            let command = DeskCommand { command: kind, value };
            assert_eq!(settle_ms(&armrest(), &command), 0);
        }
    }
}
