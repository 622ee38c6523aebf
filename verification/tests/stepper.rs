use stepper_control::stepper::{
    direction_code, direction_from_code, half_duty, Direction, MicrosteppingMode, Stepper,
    StepperCommand,
};

#[test]
fn direction_codes() {
    assert_eq!(direction_code(Direction::Forward), 0);
    assert_eq!(direction_code(Direction::Backward), 1);
    assert_eq!(direction_from_code(0), Direction::Forward);
    assert_eq!(direction_from_code(1), Direction::Backward);
    assert_eq!(direction_from_code(7), Direction::Backward);
    assert_eq!(direction_from_code(255), Direction::Backward);
    for d in [Direction::Forward, Direction::Backward] {
        assert_eq!(direction_from_code(direction_code(d)), d);
    }
}

#[test]
fn microstepping_pin_levels() {
    assert_eq!(MicrosteppingMode::Full.pin_levels(), (false, false));
    assert_eq!(MicrosteppingMode::Half.pin_levels(), (true, false));
    assert_eq!(MicrosteppingMode::Quarter.pin_levels(), (false, true));
    assert_eq!(MicrosteppingMode::Sixteenth.pin_levels(), (true, true));
}

#[test]
fn microstepping_levels_are_distinct() {
    let modes = [
        MicrosteppingMode::Full,
        MicrosteppingMode::Half,
        MicrosteppingMode::Quarter,
        MicrosteppingMode::Sixteenth,
    ];
    for a in modes {
        for b in modes {
            assert_eq!(a.pin_levels() == b.pin_levels(), a == b);
        }
    }
}

#[test]
fn half_duty_values() {
    assert_eq!(half_duty(1000), 500);
    assert_eq!(half_duty(65535), 32767);
    assert_eq!(half_duty(1), 0);
    assert_eq!(half_duty(0), 0);
}

#[test]
fn new_stepper_is_disabled() {
    let s = Stepper::new(MicrosteppingMode::Full);
    assert!(!s.enabled);
    assert!(s.enable_pin_high());
    assert_eq!(s.direction, Direction::Forward);
    assert!(s.dir_pin_high());
    assert_eq!(s.pulse_hz, 0);
    assert!(!s.pulses_on());
    assert_eq!(s.microstepping, MicrosteppingMode::Full);
}

#[test]
fn enable_drives_enable_pin_low() {
    let mut s = Stepper::new(MicrosteppingMode::Half);
    s.enable();
    assert!(s.enabled);
    assert!(!s.enable_pin_high());
    assert_eq!(s.pulse_hz, 0);
}

#[test]
fn set_speed_and_direction() {
    let mut s = Stepper::new(MicrosteppingMode::Full);
    s.enable();
    s.set_speed(1000, Direction::Forward);
    assert_eq!(s.pulse_hz, 1000);
    assert!(s.pulses_on());
    assert!(s.dir_pin_high());
    s.set_speed(500, Direction::Backward);
    assert_eq!(s.pulse_hz, 500);
    assert_eq!(s.direction, Direction::Backward);
    assert!(!s.dir_pin_high());
    s.set_speed(0, Direction::Backward);
    assert!(!s.pulses_on());
    assert!(s.enabled);
    assert_eq!(s.direction, Direction::Backward);
    s.set_direction(Direction::Forward);
    assert_eq!(s.direction, Direction::Forward);
}

#[test]
fn disable_resets_driver() {
    let mut s = Stepper::new(MicrosteppingMode::Full);
    s.set_microstepping(MicrosteppingMode::Quarter);
    s.enable();
    s.set_speed(2500, Direction::Backward);
    s.disable();
    assert_eq!(s, Stepper::new(MicrosteppingMode::Quarter));
    let once = s;
    s.disable();
    assert_eq!(s, once);
}

#[test]
fn apply_commands() {
    let mut s = Stepper::new(MicrosteppingMode::Half);
    s.apply(StepperCommand::Drive { speed: 120, direction: Direction::Backward });
    assert_eq!(
        s,
        Stepper {
            enabled: true,
            direction: Direction::Backward,
            microstepping: MicrosteppingMode::Half,
            pulse_hz: 120
        }
    );
    s.apply(StepperCommand::Disable);
    assert_eq!(s, Stepper::new(MicrosteppingMode::Half));
}

#[test]
fn set_microstepping_keeps_rest() {
    let mut s = Stepper::new(MicrosteppingMode::Full);
    s.set_microstepping(MicrosteppingMode::Sixteenth);
    assert_eq!(s.microstepping, MicrosteppingMode::Sixteenth);
    assert_eq!(s.microstepping.pin_levels(), (true, true));
    assert!(!s.enabled);
}
