//! Control logic of a stepper-motor bench: a rotary encoder sets the speed
//! and direction of a stepper motor, an eight-LED bar graph shows the speed
//! level, an emergency button stops the motor and the centre button of a
//! gamepad releases the stop.
//!
//! The library holds the decisions and the state that the firmware's tasks
//! share; the hardware drivers and the tasks that await events apply them.

pub mod bargraph;
pub mod controller;
pub mod encoder;
pub mod gamepad;
pub mod stepper;
