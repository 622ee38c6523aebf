# stepper_control

Control logic of a stepper-motor bench on an STM32 board: a rotary encoder
sets the speed and direction of a stepper motor, an eight-LED bar graph shows
the speed level, an emergency button stops the motor and the centre button of
a five-button gamepad releases the stop.

- `src/` is the verified library (Verus): the encoder's counter conversions
  and the speed/direction/level it yields (`encoder`), the bar-graph pattern
  and the mailbox that carries its level (`bargraph`), the gamepad state
  (`gamepad`), the stepper driver's pin and pulse state (`stepper`), and the
  state the tasks share with what each task decides on it (`controller`),
  with the laws that tie them together.
- `app/` is the firmware around it: the Embassy tasks, the signals and mutexes
  between them, and the drivers that read and write the GPIO pins and timers.
- `tests/` runs the library on concrete values.
