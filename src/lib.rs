//! The simulation core of a two-player paddle-and-ball game.
//!
//! All quantities are fixed-point integers: positions and lengths are in
//! millionths of a pixel, velocities in millionths of a unit direction, and
//! elapsed time in microseconds. Each frame, [`game::GameState::step`] moves
//! both paddles, advances the ball, scores and re-centres the ball when it
//! leaves the playfield sideways, and reflects it off the paddles.
use vstd::prelude::*;

pub mod geometry;
pub mod playfield;
pub mod paddle;
pub mod ball;
pub mod collision;
pub mod game;
pub mod laws;
mod random;

verus! {

/// Fixed-point scale: one pixel (or one unit of velocity) in millionths.
pub const UNIT: i64 = 1_000_000;

/// Full height of a paddle.
pub const PADDLE_HEIGHT: i64 = 140 * UNIT;

/// Full width of a paddle.
pub const PADDLE_WIDTH: i64 = 25 * UNIT;

/// Half the height of a paddle: the vertical reach of a paddle from its centre.
pub const PADDLE_HALF_HEIGHT: i64 = 70 * UNIT;

/// Half the width of a paddle: the horizontal reach of a paddle from its centre.
pub const PADDLE_HALF_WIDTH: i64 = 12_500_000;

/// Paddle speed, in pixels per second, which is millionths of a pixel per microsecond.
pub const PADDLE_SPEED: i64 = 450;

/// Radius of the ball: the depth of the band along each horizontal wall where it reflects.
pub const BALL_RADIUS: i64 = 16 * UNIT;

/// Per-frame factor applied to the ball's velocity: a velocity of one unit moves it
/// this many pixels each frame, whatever the elapsed time.
pub const BALL_SPEED: i64 = 10;

/// Distance of each paddle's centre from its side of the playfield.
pub const PADDLE_INSET: i64 = 30 * UNIT;

/// Largest playfield extent: one million pixels.
pub const MAX_EXTENT: i64 = 1_000_000 * UNIT;

/// Largest magnitude of a ball velocity component: a thousand units.
pub const MAX_VELOCITY: i64 = 1000 * UNIT;

} // verus!
