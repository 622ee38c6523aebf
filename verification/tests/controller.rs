use stepper_control::bargraph::{BarGraph, LevelMailbox};
use stepper_control::controller::Controller;
use stepper_control::encoder::ENCODER_CENTER;
use stepper_control::gamepad::GamepadState;
use stepper_control::stepper::{Direction, MicrosteppingMode, Stepper, StepperCommand};

fn center_pressed() -> GamepadState {
    GamepadState::from_pin_levels(true, true, true, true, false)
}

fn top_pressed() -> GamepadState {
    GamepadState::from_pin_levels(false, true, true, true, true)
}

#[test]
fn controller_starts_idle() {
    let c = Controller::new();
    assert!(!c.emergency_stop);
    assert_eq!(c.stepper_direction, 0);
    assert_eq!(c.stepper_speed, 0);
    assert_eq!(c.bargraph, LevelMailbox::new());
    assert_eq!(c.gamepad, GamepadState::new());
    assert_eq!(
        c.stepper_command(),
        StepperCommand::Drive { speed: 0, direction: Direction::Forward }
    );
}

#[test]
fn encoder_reading_drives_motor() {
    let mut c = Controller::new();
    let cmd = c.on_encoder_reading(4950);
    assert_eq!((cmd.direction, cmd.speed, cmd.level), (1, 500, 5));
    assert_eq!(c.stepper_direction, 1);
    assert_eq!(c.stepper_speed, 500);
    assert_eq!(c.bargraph, LevelMailbox { level: 5, pending: true });
    assert_eq!(
        c.stepper_command(),
        StepperCommand::Drive { speed: 500, direction: Direction::Backward }
    );
    assert_eq!(c.bargraph.take(), Some(5));
}

#[test]
fn emergency_stop_disables_motor() {
    let mut c = Controller::new();
    c.on_encoder_reading(5200);
    c.on_emergency_stop();
    assert!(c.emergency_stop);
    assert_eq!(c.stepper_speed, 0);
    assert_eq!(c.stepper_command(), StepperCommand::Disable);
    let mut s = Stepper::new(MicrosteppingMode::Half);
    s.apply(StepperCommand::Drive { speed: 2000, direction: Direction::Forward });
    s.apply(c.stepper_command());
    assert!(!s.enabled);
    assert_eq!(s.pulse_hz, 0);
}

#[test]
fn emergency_stop_is_latched() {
    let mut c = Controller::new();
    c.on_emergency_stop();
    c.on_encoder_reading(5300);
    assert_eq!(c.stepper_command(), StepperCommand::Disable);
    assert!(!c.on_gamepad_reading(top_pressed()));
    assert!(!c.on_gamepad_reading(GamepadState::new()));
    c.on_emergency_stop();
    c.on_encoder_reading(4000);
    assert!(c.emergency_stop);
    assert_eq!(c.stepper_command(), StepperCommand::Disable);
}

#[test]
fn center_button_releases_stop() {
    let mut c = Controller::new();
    c.on_emergency_stop();
    c.on_encoder_reading(5040);
    assert!(c.on_gamepad_reading(center_pressed()));
    assert!(!c.emergency_stop);
    assert_eq!(c.gamepad, center_pressed());
    assert_eq!(
        c.stepper_command(),
        StepperCommand::Drive { speed: 400, direction: Direction::Forward }
    );
    // A second press with nothing to release wakes nobody.
    assert!(!c.on_gamepad_reading(center_pressed()));
}

#[test]
fn gamepad_reading_outside_stop_only_stores() {
    let mut c = Controller::new();
    c.on_encoder_reading(5010);
    let before = c;
    assert!(!c.on_gamepad_reading(center_pressed()));
    assert_eq!(c, Controller { gamepad: center_pressed(), ..before });
}

#[test]
fn stop_then_center_reading_is_rest() {
    let mut c = Controller::new();
    c.on_encoder_reading(5500);
    c.on_emergency_stop();
    // The emergency task puts the encoder back at its centre.
    c.on_encoder_reading(ENCODER_CENTER);
    c.on_gamepad_reading(center_pressed());
    assert_eq!(
        c.stepper_command(),
        StepperCommand::Drive { speed: 0, direction: Direction::Forward }
    );
    assert_eq!(c.bargraph.take(), Some(0));
}

#[test]
fn reading_level_lights_as_many_leds() {
    for position in [5000, 5015, 4970, 5079, 5080, 9000, 100] {
        let mut c = Controller::new();
        let cmd = c.on_encoder_reading(position);
        let mut bar = BarGraph::new([false; 8]);
        assert!(bar.update_from(&mut c.bargraph));
        let lit = bar.leds().iter().filter(|b| **b).count();
        assert_eq!(lit as u32, cmd.level);
    }
}
