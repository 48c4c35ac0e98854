use sven_esp32::gpio::{Direction, Level, PinStep, Pulse, PulsePin};

#[test]
fn active_high_pulse() {
    let pin = PulsePin::new(true);
    assert_eq!(
        pin.pulse(1500),
        [PinStep::Drive(Level::High), PinStep::Hold(1500), PinStep::Drive(Level::Low)]
    );
}

#[test]
fn active_low_pulse() {
    let pin = PulsePin::new(false);
    assert_eq!(
        pin.pulse(20000),
        [PinStep::Drive(Level::Low), PinStep::Hold(20000), PinStep::Drive(Level::High)]
    );
}

#[test]
fn pulse_of_no_duration_still_releases() {
    let steps = PulsePin::new(true).pulse(0);
    assert_eq!(steps.len(), 3);
    assert_eq!(steps[0], PinStep::Drive(Level::High));
    assert_eq!(steps[1], PinStep::Hold(0));
    assert_eq!(steps[2], PinStep::Drive(Level::Low));
}

#[test]
fn pulse_of_the_longest_duration() {
    let steps = PulsePin::new(false).pulse(u32::MAX);
    assert_eq!(steps[1], PinStep::Hold(u32::MAX));
    assert_eq!(steps[2], PinStep::Drive(Level::High));
}

#[test]
fn pulse_constructors() {
    assert_eq!(Pulse::up(16000), Pulse { direction: Direction::Up, duration_ms: 16000 });
    assert_eq!(Pulse::down(4300), Pulse { direction: Direction::Down, duration_ms: 4300 });
}
