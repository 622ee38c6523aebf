//! The rotary encoder: the counter of the quadrature timer, and what the
//! encoder task makes of a reading of it.

use vstd::prelude::*;

verus! {

/// Auto-reload value written to the quadrature timer: the counter runs over
/// `0..=ENCODER_RELOAD`.
pub const ENCODER_RELOAD: u32 = 10_000;

/// Position to which the encoder is reset: the middle of its range, where
/// the motor stands still.
pub const ENCODER_CENTER: i32 = 5_000;

/// Highest speed level shown on the bar graph (one per LED).
pub const MAX_LEVEL: u32 = 8;

/// Largest distance from the centre whose speed (ten times the distance)
/// fits in a `u32`.
pub const MAX_OFFSET: i32 = 429_496_729;

/// The position that a raw counter value stands for: the counter's 32 bits
/// read as a two's-complement number.
pub open spec fn position_of_count(count: u32) -> int {
    if count <= i32::MAX {
        count as int
    } else {
        count - 0x1_0000_0000
    }
}

/// The raw counter value that a position is written as: its 32 bits in two's
/// complement.
pub open spec fn count_of_position(position: i32) -> int {
    if position >= 0 {
        position as int
    } else {
        position + 0x1_0000_0000
    }
}

/// Reads a raw counter value as a position.
pub fn position_from_count(count: u32) -> (position: i32)
    ensures
        position == position_of_count(count),
{
    let position = #[verifier::truncate] (count as i32);
    assert((#[verifier::truncate] (count as i32)) == if count <= 0x7fff_ffff {
        count as int
    } else {
        count - 0x1_0000_0000
    }) by (bit_vector);
    position
}

/// The raw counter value to write for a position.
pub fn count_from_position(position: i32) -> (count: u32)
    ensures
        count == count_of_position(position),
{
    let count = #[verifier::truncate] (position as u32);
    assert((#[verifier::truncate] (position as u32)) == if position >= 0 {
        position as int
    } else {
        position + 0x1_0000_0000
    }) by (bit_vector);
    count
}

/// Absolute value.
pub open spec fn abs(x: int) -> int {
    if x >= 0 {
        x
    } else {
        -x
    }
}

/// Signed distance of a position from the centre.
pub open spec fn offset_of(position: int) -> int {
    position - ENCODER_CENTER
}

/// Whether the encoder task can handle a position: its speed must fit in a
/// `u32`.
pub open spec fn handled_position(position: int) -> bool {
    abs(offset_of(position)) <= MAX_OFFSET
}

/// Direction code that the encoder task stores for a position: 0 (forward)
/// at or above the centre, 1 (backward) below it.
pub open spec fn direction_code_of(position: int) -> u8 {
    if offset_of(position) >= 0 {
        0
    } else {
        1
    }
}

/// Motor speed in Hz for a position: ten times its distance from the centre.
pub open spec fn speed_of(position: int) -> int {
    abs(offset_of(position)) * 10
}

/// Bar-graph level for a position: one level per ten steps from the centre,
/// at most `MAX_LEVEL`.
pub open spec fn level_of(position: int) -> int {
    let level = abs(offset_of(position)) / 10;
    if level > MAX_LEVEL {
        MAX_LEVEL as int
    } else {
        level
    }
}

/// What the encoder task publishes after a reading.
#[derive(Clone, Copy, Debug, PartialEq, Eq, Structural)]
pub struct DriveCommand {
    /// Direction code: 0 forward, 1 backward.
    pub direction: u8,
    /// Motor speed in Hz.
    pub speed: u32,
    /// Bar-graph level.
    pub level: u32,
}

/// Turns an encoder position into the direction, speed and bar-graph level
/// that the encoder task publishes.
pub fn drive_command(position: i32) -> (command: DriveCommand)
    requires
        handled_position(position as int),
    ensures
        command.direction == direction_code_of(position as int),
        command.speed == speed_of(position as int),
        command.level == level_of(position as int),
{
    let delta: i32 = position - ENCODER_CENTER;
    let direction: u8 = if delta >= 0 {
        0
    } else {
        1
    };
    let distance: u32 = if delta >= 0 {
        delta as u32
    } else {
        (-delta) as u32
    };
    let speed: u32 = distance * 10;
    let mut level: u32 = distance / 10;
    if level > MAX_LEVEL {
        level = MAX_LEVEL;
    }
    DriveCommand { direction, speed, level }
}


/// Writing a position and reading it back gives the same position.
pub proof fn lemma_position_round_trip(position: i32)
    ensures
        position_of_count(count_of_position(position) as u32) == position,
{
}

/// Reading a counter value and writing it back gives the same value.
pub proof fn lemma_count_round_trip(count: u32)
    ensures
        count_of_position(position_of_count(count) as i32) == count,
{
}

/// At the centre the motor stands still, forward, with the bar graph empty.
pub proof fn lemma_center_is_rest()
    ensures
        speed_of(ENCODER_CENTER as int) == 0,
        level_of(ENCODER_CENTER as int) == 0,
        direction_code_of(ENCODER_CENTER as int) == 0,
{
}

/// Two positions at the same distance on either side of the centre give the
/// same speed and level in opposite directions.
pub proof fn lemma_symmetric(distance: int)
    requires
        distance > 0,
    ensures
        speed_of(ENCODER_CENTER + distance) == speed_of(ENCODER_CENTER - distance),
        level_of(ENCODER_CENTER + distance) == level_of(ENCODER_CENTER - distance),
        direction_code_of(ENCODER_CENTER + distance) == 0,
        direction_code_of(ENCODER_CENTER - distance) == 1,
{
}

/// The bar-graph level is the speed in hundreds of Hz, capped at
/// `MAX_LEVEL`; it never goes down as the speed goes up.
pub proof fn lemma_level_follows_speed(p: int, q: int)
    ensures
        level_of(p) == if speed_of(p) / 100 > MAX_LEVEL {
            MAX_LEVEL as int
        } else {
            speed_of(p) / 100
        },
        0 <= level_of(p) <= MAX_LEVEL,
        speed_of(p) <= speed_of(q) ==> level_of(p) <= level_of(q),
{
    let a = abs(offset_of(p));
    let b = abs(offset_of(q));
    assert((a * 10) / 100 == a / 10) by (nonlinear_arith)
        requires
            a >= 0,
    ;
    assert((b * 10) / 100 == b / 10) by (nonlinear_arith)
        requires
            b >= 0,
    ;
    assert(a * 10 <= b * 10 ==> a / 10 <= b / 10) by (nonlinear_arith)
        requires
            a >= 0,
            b >= 0,
    ;
}

} // verus!
