//! Units of measure and the fixed dimensions of the playing field.

use vstd::prelude::*;

verus! {

/// Length units in one pixel. With three million units to the pixel and time
/// in microseconds, a speed of one third of a pixel per second is exactly one
/// unit per microsecond.
pub const UNITS_PER_PIXEL: i64 = 3_000_000;

/// Microseconds in one second.
pub const MICROS_PER_SECOND: u64 = 1_000_000;

/// Width of the playing field (500 pixels).
pub const SCREEN_WIDTH: i64 = 500 * UNITS_PER_PIXEL;

/// Height of the playing field (500 pixels).
pub const SCREEN_HEIGHT: i64 = 500 * UNITS_PER_PIXEL;

/// Thickness of the four walls around the field (10 pixels).
pub const WALL_THICKNESS: i64 = 10 * UNITS_PER_PIXEL;

/// Width of the player's sprite (48 pixels).
pub const PLAYER_WIDTH: i64 = 48 * UNITS_PER_PIXEL;

/// Height of the player's sprite (32 pixels).
pub const PLAYER_HEIGHT: i64 = 32 * UNITS_PER_PIXEL;

/// Height at which the player rests: one sprite height above the bottom
/// edge, which lies 250 pixels below the centre of the field.
pub const PLAYER_Y: i64 = -218 * UNITS_PER_PIXEL;

/// Farthest the player's centre may be from the middle of the field: half the
/// field, less the wall, less half the sprite (216 pixels).
pub const PLAYER_MAX_X: i64 = 216 * UNITS_PER_PIXEL;

/// Speed of the player: 500 pixels per second, in units per microsecond.
pub const PLAYER_SPEED: u64 = 1500;

/// Width of a bug's sprite, and of one spawn column (48 pixels).
pub const BUG_WIDTH: i64 = 48 * UNITS_PER_PIXEL;

/// Height of a bug's sprite (48 pixels).
pub const BUG_HEIGHT: i64 = 48 * UNITS_PER_PIXEL;

/// Height at which bugs appear: as far above the centre of the field as the
/// player rests below it, less half the player's height (202 pixels).
pub const BUG_SPAWN_Y: i64 = 202 * UNITS_PER_PIXEL;

/// Speed of a bug spawned at score zero: 40 pixels per second.
pub const BUG_BASE_SPEED: u64 = 120;

/// What each point of score adds to the speed of the bugs spawned after it:
/// two thirds of a pixel per second.
pub const BUG_SPEED_PER_POINT: u64 = 2;

/// Leftmost spawn column.
pub const FIRST_COLUMN: i32 = -5;

/// One past the rightmost spawn column.
pub const END_COLUMN: i32 = 5;

/// Time between two spawns at the start of a round: two seconds.
pub const BASE_INTERVAL: u64 = 2 * MICROS_PER_SECOND;

/// The derived dimensions agree with the ones they are derived from.
pub proof fn lemma_derived_dimensions()
    ensures
        2 * PLAYER_Y == 2 * PLAYER_HEIGHT - SCREEN_HEIGHT,
        2 * PLAYER_MAX_X == SCREEN_WIDTH - 2 * WALL_THICKNESS - PLAYER_WIDTH,
        2 * BUG_SPAWN_Y == -2 * PLAYER_Y - PLAYER_HEIGHT,
        MICROS_PER_SECOND * PLAYER_SPEED == 500 * UNITS_PER_PIXEL,
        MICROS_PER_SECOND * BUG_BASE_SPEED == 40 * UNITS_PER_PIXEL,
        3 * MICROS_PER_SECOND * BUG_SPEED_PER_POINT == 2 * UNITS_PER_PIXEL,
{
}

} // verus!
