use vstd::prelude::*;
use crate::geometry::SCALE;

verus! {

/// Size of the playing field in pixels.
pub const SCREEN_WIDTH: i32 = 450;
pub const SCREEN_HEIGHT: i32 = 800;

/// Size of the playing field in fixed-point steps.
pub const FIELD_WIDTH: i64 = 450 * SCALE;
pub const FIELD_HEIGHT: i64 = 800 * SCALE;

/// Positions saturate at this distance (in steps) from the origin.
pub const WORLD_LIMIT: i64 = 1_000_000_000 * SCALE;

/// The largest ball radius (in steps) the rules are made for.
pub const MAX_RADIUS: i64 = 1_000 * SCALE;

pub const BRICKS_PER_LINE: i32 = 6;
pub const BRICK_HEIGHT: i64 = 20 * SCALE;
pub const PADDLE_HEIGHT: i64 = 20 * SCALE;
pub const BALL_RADIUS: i64 = 7 * SCALE;

/// Speeds in steps per second.
pub const PLAYER_SPEED: i64 = 300 * SCALE;
pub const BALL_SPEED: i64 = 600 * SCALE;

/// Points that win a round.
pub const WIN_POINTS: i32 = 7;

} // verus!
