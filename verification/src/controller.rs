//! The state that the firmware's tasks share (emergency flag, motor speed
//! and direction, bar-graph level, gamepad state) and what each task decides
//! on it.

use vstd::prelude::*;

use crate::bargraph::{bar_pattern, lemma_lit_count, lit_count, update_value, LevelMailbox};
use crate::encoder::{
    direction_code_of, drive_command, handled_position, level_of, offset_of, speed_of,
    DriveCommand, ENCODER_CENTER, MAX_LEVEL,
};
use crate::gamepad::GamepadState;
use crate::stepper::{direction_from_code, direction_of_code, Direction, Stepper, StepperCommand};

verus! {

/// The shared state of the firmware.
#[derive(Clone, Copy, Debug, PartialEq, Eq, Structural)]
pub struct Controller {
    /// Set by the emergency button, cleared by the gamepad's centre button.
    pub emergency_stop: bool,
    /// Direction code of the motor: 0 forward, any other value backward.
    pub stepper_direction: u8,
    /// Speed of the motor in Hz.
    pub stepper_speed: u32,
    /// Level published for the bar graph.
    pub bargraph: LevelMailbox,
    /// Latest reading of the gamepad.
    pub gamepad: GamepadState,
}

/// Something that happens to the shared state.
pub enum Event {
    /// The encoder task read a position.
    EncoderReading(i32),
    /// The emergency button was pressed.
    EmergencyStop,
    /// The gamepad task read the gamepad.
    GamepadReading(GamepadState),
}

impl Controller {
    /// The state after `on_encoder_reading(position)`.
    pub open spec fn spec_encoder_reading(self, position: i32) -> Controller {
        Controller {
            stepper_direction: direction_code_of(position as int),
            stepper_speed: speed_of(position as int) as u32,
            bargraph: self.bargraph.spec_update(level_of(position as int) as u32),
            ..self
        }
    }

    /// The state after `on_emergency_stop()`.
    pub open spec fn spec_emergency_stop(self) -> Controller {
        Controller { emergency_stop: true, stepper_speed: 0, ..self }
    }

    /// Whether `on_gamepad_reading(state)` releases the emergency stop (and
    /// so wakes the motor task).
    pub open spec fn spec_releases(self, state: GamepadState) -> bool {
        state.center && self.emergency_stop
    }

    /// The state after `on_gamepad_reading(state)`.
    pub open spec fn spec_gamepad_reading(self, state: GamepadState) -> Controller {
        Controller {
            gamepad: state,
            emergency_stop: if self.spec_releases(state) {
                false
            } else {
                self.emergency_stop
            },
            ..self
        }
    }

    /// What the motor task does when woken in this state.
    pub open spec fn spec_command(self) -> StepperCommand {
        if self.emergency_stop {
            StepperCommand::Disable
        } else {
            StepperCommand::Drive {
                speed: self.stepper_speed,
                direction: direction_of_code(self.stepper_direction),
            }
        }
    }

    /// The state after an event.
    pub open spec fn spec_step(self, event: Event) -> Controller {
        match event {
            Event::EncoderReading(position) => self.spec_encoder_reading(position),
            Event::EmergencyStop => self.spec_emergency_stop(),
            Event::GamepadReading(state) => self.spec_gamepad_reading(state),
        }
    }

    /// The state after a sequence of events, in order.
    pub open spec fn spec_run(self, events: Seq<Event>) -> Controller
        decreases events.len(),
    {
        if events.len() == 0 {
            self
        } else {
            self.spec_step(events[0]).spec_run(events.drop_first())
        }
    }

    /// The state at start-up: no emergency, motor still and forward, bar
    /// graph at level 0 with nothing to take, no button pressed.
    pub fn new() -> (c: Controller)
        ensures
            c == (Controller {
                emergency_stop: false,
                stepper_direction: 0,
                stepper_speed: 0,
                bargraph: LevelMailbox { level: 0, pending: false },
                gamepad: GamepadState {
                    top: false,
                    bottom: false,
                    left: false,
                    right: false,
                    center: false,
                },
            }),
    {
        Controller {
            emergency_stop: false,
            stepper_direction: 0,
            stepper_speed: 0,
            bargraph: LevelMailbox::new(),
            gamepad: GamepadState::new(),
        }
    }

    /// What the encoder task does with a position: stores the motor's
    /// direction and speed and publishes the bar-graph level. The caller then
    /// wakes the motor task. Returns what was published.
    pub fn on_encoder_reading(&mut self, position: i32) -> (command: DriveCommand)
        requires
            handled_position(position as int),
        ensures
            *final(self) == old(self).spec_encoder_reading(position),
            command.direction == direction_code_of(position as int),
            command.speed == speed_of(position as int),
            command.level == level_of(position as int),
    {
        let command = drive_command(position);
        self.stepper_direction = command.direction;
        self.stepper_speed = command.speed;
        update_value(&mut self.bargraph, command.level);
        command
    }

    /// What the emergency task does when the button is pressed: raises the
    /// emergency flag and sets the speed to 0. The caller then wakes the
    /// motor task and resets the encoder to its centre.
    pub fn on_emergency_stop(&mut self)
        ensures
            *final(self) == old(self).spec_emergency_stop(),
    {
        self.emergency_stop = true;
        self.stepper_speed = 0;
    }

    /// What the gamepad task does with a reading: stores it, and if the
    /// centre button is pressed during an emergency stop, clears the stop.
    /// Returns whether it did, in which case the caller wakes the motor task.
    pub fn on_gamepad_reading(&mut self, state: GamepadState) -> (released: bool)
        ensures
            released == old(self).spec_releases(state),
            *final(self) == old(self).spec_gamepad_reading(state),
    {
        self.gamepad = state;
        if state.center && self.emergency_stop {
            self.emergency_stop = false;
            true
        } else {
            false
        }
    }

    /// What the motor task does when woken: disable the motor during an
    /// emergency stop, else drive it at the stored speed and direction.
    pub fn stepper_command(&self) -> (command: StepperCommand)
        ensures
            command == self.spec_command(),
    {
        if self.emergency_stop {
            StepperCommand::Disable
        } else {
            StepperCommand::Drive {
                speed: self.stepper_speed,
                direction: direction_from_code(self.stepper_direction),
            }
        }
    }
}

/// Pressing the emergency button sets the speed to 0 and leaves the motor
/// task nothing to do but disable the motor.
pub proof fn lemma_emergency_stop_disables(c: Controller)
    ensures
        c.spec_emergency_stop().emergency_stop,
        c.spec_emergency_stop().stepper_speed == 0,
        c.spec_emergency_stop().spec_command() == StepperCommand::Disable,
{
}

/// After the emergency button, the motor task leaves the motor unpowered and
/// without step pulses, whatever state the driver was in.
pub proof fn lemma_emergency_stop_stops_motor(c: Controller, s: Stepper)
    ensures
        !s.spec_apply(c.spec_emergency_stop().spec_command()).enabled,
        s.spec_apply(c.spec_emergency_stop().spec_command()).pulse_hz == 0,
{
}

/// Whether an event is a gamepad reading with the centre button pressed.
pub open spec fn is_center_press(event: Event) -> bool {
    match event {
        Event::GamepadReading(state) => state.center,
        _ => false,
    }
}

/// Once stopped, the system stays stopped: through any encoder readings,
/// further presses of the emergency button and gamepad readings without the
/// centre button, the flag stays up and the motor task only disables the
/// motor.
pub proof fn lemma_stop_latched(c: Controller, events: Seq<Event>)
    requires
        c.emergency_stop,
        forall|i: int| 0 <= i < events.len() ==> !is_center_press(#[trigger] events[i]),
    ensures
        c.spec_run(events).emergency_stop,
        c.spec_run(events).spec_command() == StepperCommand::Disable,
    decreases events.len(),
{
    if events.len() > 0 {
        let next = c.spec_step(events[0]);
        assert(!is_center_press(events[0]));
        assert(next.emergency_stop);
        let rest = events.drop_first();
        assert forall|i: int| 0 <= i < rest.len() implies !is_center_press(#[trigger] rest[i]) by {
            assert(rest[i] == events[i + 1]);
        }
        lemma_stop_latched(next, rest);
    }
}

/// During an emergency stop, a gamepad reading with the centre button
/// clears the stop and wakes the motor task, which then drives the motor at
/// the stored speed and direction.
pub proof fn lemma_center_releases(c: Controller, state: GamepadState)
    requires
        c.emergency_stop,
        state.center,
    ensures
        c.spec_releases(state),
        !c.spec_gamepad_reading(state).emergency_stop,
        c.spec_gamepad_reading(state).spec_command() == (StepperCommand::Drive {
            speed: c.stepper_speed,
            direction: direction_of_code(c.stepper_direction),
        }),
{
}

/// A gamepad reading outside an emergency stop only stores the reading and
/// wakes nobody.
pub proof fn lemma_gamepad_idle(c: Controller, state: GamepadState)
    requires
        !c.emergency_stop,
    ensures
        !c.spec_releases(state),
        c.spec_gamepad_reading(state) == (Controller { gamepad: state, ..c }),
{
}

/// Outside an emergency stop, an encoder reading sets the motor to ten
/// times the distance from the centre, forward at or above the centre and
/// backward below it, and publishes a level of at most `MAX_LEVEL` that the
/// bar graph then takes.
pub proof fn lemma_reading_drives(c: Controller, position: i32)
    requires
        !c.emergency_stop,
        handled_position(position as int),
    ensures
        c.spec_encoder_reading(position).spec_command() == (StepperCommand::Drive {
            speed: speed_of(position as int) as u32,
            direction: if position >= ENCODER_CENTER {
                Direction::Forward
            } else {
                Direction::Backward
            },
        }),
        level_of(position as int) <= MAX_LEVEL,
        c.spec_encoder_reading(position).bargraph.spec_take_result() == Some(
            level_of(position as int) as u32,
        ),
{
    assert(offset_of(position as int) >= 0 <==> position >= ENCODER_CENTER);
}

/// The level that an encoder reading publishes, shown on the eight-LED bar
/// graph, lights exactly that many LEDs.
pub proof fn lemma_reading_shown(position: int)
    ensures
        lit_count(bar_pattern(level_of(position), MAX_LEVEL as nat)) == level_of(position),
{
    lemma_lit_count(level_of(position), MAX_LEVEL as nat);
}


/// Every handled encoder reading, during an emergency stop or not, stores
/// direction code 0 at or above the centre and 1 below it, and ten times the
/// distance from the centre as the speed; it leaves the emergency flag and
/// the gamepad reading alone.
pub proof fn lemma_reading_stores_drive(c: Controller, position: i32)
    requires
        handled_position(position as int),
    ensures
        c.spec_encoder_reading(position).stepper_direction == if position >= 5000 {
            0u8
        } else {
            1u8
        },
        c.spec_encoder_reading(position).stepper_speed as int == if position >= 5000 {
            (position - 5000) * 10
        } else {
            (5000 - position) * 10
        },
        c.spec_encoder_reading(position).emergency_stop == c.emergency_stop,
        c.spec_encoder_reading(position).gamepad == c.gamepad,
{
}

/// A knob turned during an emergency stop takes effect on release: after a
/// stop, a reading at `position` and a centre-button press, the motor task
/// drives the motor at that reading's speed and direction.
pub proof fn lemma_reading_during_stop_used_on_release(
    c: Controller,
    position: i32,
    state: GamepadState,
)
    requires
        handled_position(position as int),
        state.center,
    ensures
        c.spec_emergency_stop().spec_encoder_reading(position).spec_gamepad_reading(
            state,
        ).spec_command() == (StepperCommand::Drive {
            speed: (if position >= 5000 {
                (position - 5000) * 10
            } else {
                (5000 - position) * 10
            }) as u32,
            direction: if position >= 5000 {
                Direction::Forward
            } else {
                Direction::Backward
            },
        }),
{
}

} // verus!
