//! The stepper-motor driver: direction, enable and microstepping pins, and
//! the pulse train that a PWM channel sends to the step input.

use vstd::prelude::*;

verus! {

/// Direction of rotation of the motor.
#[derive(Clone, Copy, Debug, PartialEq, Eq, Structural)]
pub enum Direction {
    Forward,
    Backward,
}

/// Microstepping mode, selected by the MS1 and MS2 pins of the driver.
#[derive(Clone, Copy, Debug, PartialEq, Eq, Structural)]
pub enum MicrosteppingMode {
    /// MS1 low, MS2 low.
    Full,
    /// MS1 high, MS2 low.
    Half,
    /// MS1 low, MS2 high.
    Quarter,
    /// MS1 high, MS2 high.
    Sixteenth,
}

/// The direction that a stored direction code stands for: 0 is forward,
/// every other code backward.
pub open spec fn direction_of_code(code: u8) -> Direction {
    if code == 0 {
        Direction::Forward
    } else {
        Direction::Backward
    }
}

/// The code under which a direction is stored: 0 for forward, 1 for backward.
pub open spec fn code_of_direction(direction: Direction) -> u8 {
    match direction {
        Direction::Forward => 0,
        Direction::Backward => 1,
    }
}

/// Decodes a stored direction code.
pub fn direction_from_code(code: u8) -> (direction: Direction)
    ensures
        direction == direction_of_code(code),
{
    if code == 0 {
        Direction::Forward
    } else {
        Direction::Backward
    }
}

/// Encodes a direction as the code under which it is stored.
pub fn direction_code(direction: Direction) -> (code: u8)
    ensures
        code == code_of_direction(direction),
{
    match direction {
        Direction::Forward => 0,
        Direction::Backward => 1,
    }
}

/// Level of the direction pin: high for forward, low for backward.
pub open spec fn dir_level(direction: Direction) -> bool {
    direction == Direction::Forward
}

/// Levels of the MS1 and MS2 pins that select a microstepping mode.
pub open spec fn ms_levels(mode: MicrosteppingMode) -> (bool, bool) {
    match mode {
        MicrosteppingMode::Full => (false, false),
        MicrosteppingMode::Half => (true, false),
        MicrosteppingMode::Quarter => (false, true),
        MicrosteppingMode::Sixteenth => (true, true),
    }
}

impl MicrosteppingMode {
    /// Levels (high is `true`) of the MS1 and MS2 pins for this mode.
    pub fn pin_levels(self) -> (levels: (bool, bool))
        ensures
            levels == ms_levels(self),
    {
        match self {
            MicrosteppingMode::Full => (false, false),
            MicrosteppingMode::Half => (true, false),
            MicrosteppingMode::Quarter => (false, true),
            MicrosteppingMode::Sixteenth => (true, true),
        }
    }
}

/// Duty cycle of the step pulses: half of the PWM channel's full scale.
pub fn half_duty(max_duty: u16) -> (duty: u16)
    ensures
        duty == max_duty / 2,
{
    max_duty / 2
}

/// What the motor task asks of the driver when it wakes up.
#[derive(Clone, Copy, Debug, PartialEq, Eq, Structural)]
pub enum StepperCommand {
    /// Cut the power of the motor and stop the pulses.
    Disable,
    /// Power the motor and pulse it at `speed` Hz in `direction`.
    Drive { speed: u32, direction: Direction },
}

/// The state that the driver has set on the motor's inputs.
///
/// `enabled` is the logical state of the active-low enable pin, and
/// `pulse_hz` the frequency of the step pulses, 0 when the PWM channel is
/// off.
#[derive(Clone, Copy, Debug, PartialEq, Eq, Structural)]
pub struct Stepper {
    pub enabled: bool,
    pub direction: Direction,
    pub microstepping: MicrosteppingMode,
    pub pulse_hz: u32,
}

impl Stepper {
    /// The driver after `set_direction(direction)`.
    pub open spec fn spec_set_direction(self, direction: Direction) -> Stepper {
        Stepper { direction, ..self }
    }

    /// The driver after `set_speed(hz, direction)`.
    pub open spec fn spec_set_speed(self, hz: u32, direction: Direction) -> Stepper {
        Stepper { direction, pulse_hz: hz, ..self }
    }

    /// The driver after `enable()`.
    pub open spec fn spec_enable(self) -> Stepper {
        Stepper { enabled: true, ..self }
    }

    /// The driver after `disable()`.
    pub open spec fn spec_disable(self) -> Stepper {
        Stepper { enabled: false, ..self }.spec_set_speed(0, Direction::Forward)
    }

    /// The driver after `set_microstepping(mode)`.
    pub open spec fn spec_set_microstepping(self, mode: MicrosteppingMode) -> Stepper {
        Stepper { microstepping: mode, ..self }
    }

    /// The driver after `apply(command)`.
    pub open spec fn spec_apply(self, command: StepperCommand) -> Stepper {
        match command {
            StepperCommand::Disable => self.spec_disable(),
            StepperCommand::Drive { speed, direction } => self.spec_enable().spec_set_speed(
                speed,
                direction,
            ),
        }
    }

    /// A driver whose MS pins were wired for `microstepping`; it starts
    /// disabled, as `disable` leaves it.
    pub fn new(microstepping: MicrosteppingMode) -> (s: Stepper)
        ensures
            s == (Stepper {
                enabled: false,
                direction: Direction::Forward,
                microstepping,
                pulse_hz: 0,
            }),
    {
        let mut s = Stepper { enabled: true, direction: Direction::Forward, microstepping, pulse_hz: 0 };
        s.disable();
        s
    }

    /// Powers the motor (drives the active-low enable pin low).
    pub fn enable(&mut self)
        ensures
            *final(self) == old(self).spec_enable(),
    {
        self.enabled = true;
    }

    /// Cuts the power of the motor and stops the pulses, leaving the
    /// direction forward.
    pub fn disable(&mut self)
        ensures
            *final(self) == old(self).spec_disable(),
    {
        self.enabled = false;
        self.set_speed(0, Direction::Forward);
    }

    /// Sets the direction of rotation.
    pub fn set_direction(&mut self, direction: Direction)
        ensures
            *final(self) == old(self).spec_set_direction(direction),
    {
        self.direction = direction;
    }

    /// Sets the direction, then the pulse frequency: 0 Hz turns the PWM
    /// channel off, any other frequency turns it on at that frequency.
    pub fn set_speed(&mut self, hz: u32, direction: Direction)
        ensures
            *final(self) == old(self).spec_set_speed(hz, direction),
    {
        self.set_direction(direction);
        self.pulse_hz = hz;
    }

    /// Selects a microstepping mode.
    pub fn set_microstepping(&mut self, mode: MicrosteppingMode)
        ensures
            *final(self) == old(self).spec_set_microstepping(mode),
    {
        self.microstepping = mode;
    }

    /// Carries out what the motor task decided.
    pub fn apply(&mut self, command: StepperCommand)
        ensures
            *final(self) == old(self).spec_apply(command),
    {
        match command {
            StepperCommand::Disable => self.disable(),
            StepperCommand::Drive { speed, direction } => {
                self.enable();
                self.set_speed(speed, direction);
            },
        }
    }

    /// Level of the active-low enable pin: high while the motor is off.
    pub fn enable_pin_high(&self) -> (high: bool)
        ensures
            high == !self.enabled,
    {
        !self.enabled
    }

    /// Level of the direction pin.
    pub fn dir_pin_high(&self) -> (high: bool)
        ensures
            high == dir_level(self.direction),
    {
        match self.direction {
            Direction::Forward => true,
            Direction::Backward => false,
        }
    }

    /// Whether the PWM channel that sends the step pulses is on.
    pub fn pulses_on(&self) -> (on: bool)
        ensures
            on == (self.pulse_hz != 0),
    {
        self.pulse_hz != 0
    }
}


/// A stored direction code gives back the direction it was stored for.
pub proof fn lemma_direction_code_round_trip(direction: Direction)
    ensures
        direction_of_code(code_of_direction(direction)) == direction,
{
}

/// Each microstepping mode has its own pair of MS pin levels.
pub proof fn lemma_microstepping_levels_distinct(a: MicrosteppingMode, b: MicrosteppingMode)
    requires
        ms_levels(a) == ms_levels(b),
    ensures
        a == b,
{
}

/// Disabling the driver brings it back to the state it starts in, whatever
/// was done before (only the microstepping mode is kept); doing it twice is
/// the same as once.
pub proof fn lemma_disable_resets(s: Stepper)
    ensures
        s.spec_disable() == (Stepper {
            enabled: false,
            direction: Direction::Forward,
            microstepping: s.microstepping,
            pulse_hz: 0,
        }),
        s.spec_disable().spec_disable() == s.spec_disable(),
{
}

/// A speed of 0 stops the pulses but leaves the power as it was; any other
/// speed pulses at that frequency.
pub proof fn lemma_set_speed(s: Stepper, hz: u32, direction: Direction)
    ensures
        s.spec_set_speed(hz, direction).enabled == s.enabled,
        s.spec_set_speed(hz, direction).direction == direction,
        (s.spec_set_speed(hz, direction).pulse_hz != 0) == (hz != 0),
{
}

/// Driving the motor powers it and pulses it at the asked speed and
/// direction, keeping the microstepping mode.
pub proof fn lemma_drive(s: Stepper, speed: u32, direction: Direction)
    ensures
        s.spec_apply(StepperCommand::Drive { speed, direction }) == (Stepper {
            enabled: true,
            direction,
            microstepping: s.microstepping,
            pulse_hz: speed,
        }),
{
}


/// `set_direction(d)` makes the direction `d`, so the direction pin is high
/// exactly for forward, and changes nothing else.
pub proof fn lemma_set_direction_exact(s: Stepper, d: Direction)
    ensures
        s.spec_set_direction(d) == (Stepper {
            enabled: s.enabled,
            direction: d,
            microstepping: s.microstepping,
            pulse_hz: s.pulse_hz,
        }),
        (s.spec_set_direction(d).direction == Direction::Forward) == (d == Direction::Forward),
{
}

/// `set_speed(hz, d)` pulses at exactly `hz` (none for 0) in direction `d`,
/// keeping the power and microstepping mode.
pub proof fn lemma_set_speed_exact(s: Stepper, hz: u32, d: Direction)
    ensures
        s.spec_set_speed(hz, d) == (Stepper {
            enabled: s.enabled,
            direction: d,
            microstepping: s.microstepping,
            pulse_hz: hz,
        }),
{
}

/// `set_microstepping(m)` selects `m` and changes nothing else.
pub proof fn lemma_set_microstepping_exact(s: Stepper, m: MicrosteppingMode)
    ensures
        s.spec_set_microstepping(m) == (Stepper {
            enabled: s.enabled,
            direction: s.direction,
            microstepping: m,
            pulse_hz: s.pulse_hz,
        }),
{
}

/// MS1 is high for half and sixteenth steps, MS2 for quarter and sixteenth
/// steps.
pub proof fn lemma_ms_levels_closed_form(m: MicrosteppingMode)
    ensures
        ms_levels(m).0 == (m == MicrosteppingMode::Half || m == MicrosteppingMode::Sixteenth),
        ms_levels(m).1 == (m == MicrosteppingMode::Quarter || m
            == MicrosteppingMode::Sixteenth),
{
}

} // verus!
