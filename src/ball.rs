//! Motion of the ball, its reflection off the horizontal walls, and its exit sideways.
use vstd::prelude::*;
use crate::geometry::{abs, Vector2};
use crate::playfield::Playfield;
use crate::{BALL_RADIUS, BALL_SPEED, MAX_EXTENT, MAX_VELOCITY};

verus! {

/// The side through which the ball left the playfield.
#[derive(Clone, Copy, Debug, PartialEq, Eq, Structural)]
pub enum ExitSide {
    Left,
    Right,
}

/// The ball: the position of its centre and its velocity.
#[derive(Clone, Copy, Debug, PartialEq, Eq, Structural)]
pub struct Ball {
    pub position: Vector2,
    pub velocity: Vector2,
}

/// Distance the ball covers in one frame along an axis where its velocity is `v`.
pub open spec fn ball_travel(v: int) -> int {
    v * BALL_SPEED
}

/// Height `y` lies in the band along the top or the bottom wall of a playfield of
/// height `h` where the ball is in contact with that wall.
pub open spec fn in_wall_band(y: int, h: int) -> bool {
    y <= BALL_RADIUS || y >= h - BALL_RADIUS
}

/// The side that a ball at `x` has left a playfield of width `w` through, if any.
pub open spec fn exit_side(x: int, w: int) -> Option<ExitSide> {
    if x < 0 {
        Some(ExitSide::Left)
    } else if x > w {
        Some(ExitSide::Right)
    } else {
        None
    }
}

impl Ball {
    /// The ball's speed is within bounds, it lies horizontally within the largest
    /// playfield, and vertically it is at most one frame's travel past a wall band,
    /// and only while moving back out of it.
    pub open spec fn wf(self) -> bool {
        let y = self.position.y as int;
        let vy = self.velocity.y as int;
        let d = abs(ball_travel(vy));
        &&& abs(self.velocity.x as int) <= MAX_VELOCITY
        &&& abs(vy) <= MAX_VELOCITY
        &&& 0 <= self.position.x <= MAX_EXTENT
        &&& BALL_RADIUS - d <= y <= MAX_EXTENT - BALL_RADIUS + d
        &&& (vy < 0 ==> y >= BALL_RADIUS)
        &&& (vy > 0 ==> y <= MAX_EXTENT - BALL_RADIUS)
    }

    /// The ball after one frame's motion in a playfield of height `h`: moved by its
    /// velocity times the speed factor, with its vertical velocity negated when it
    /// ends up in a wall band.
    pub open spec fn advanced(self, h: int) -> Ball {
        let x = self.position.x + ball_travel(self.velocity.x as int);
        let y = self.position.y + ball_travel(self.velocity.y as int);
        let vy = if in_wall_band(y, h) {
            -self.velocity.y
        } else {
            self.velocity.y as int
        };
        Ball {
            position: Vector2 { x: x as i64, y: y as i64 },
            velocity: Vector2 { x: self.velocity.x, y: vy as i64 },
        }
    }

    /// The ball moved to the centre of `playfield`, its velocity kept.
    pub open spec fn recentered(self, playfield: Playfield) -> Ball {
        Ball {
            position: Vector2 {
                x: (playfield.width / 2) as i64,
                y: (playfield.height / 2) as i64,
            },
            velocity: self.velocity,
        }
    }

    /// The ball with its horizontal velocity negated.
    pub open spec fn reflected_horizontally(self) -> Ball {
        Ball {
            position: self.position,
            velocity: Vector2 { x: (-self.velocity.x) as i64, y: self.velocity.y },
        }
    }

    pub fn is_well_formed(&self) -> (r: bool)
        ensures
            r == self.wf(),
    {
        let x: i128 = self.position.x as i128;
        let y: i128 = self.position.y as i128;
        let vx: i128 = self.velocity.x as i128;
        let vy: i128 = self.velocity.y as i128;
        let d: i128 = if vy < 0 {
            -vy * BALL_SPEED as i128
        } else {
            vy * BALL_SPEED as i128
        };
        let radius: i128 = BALL_RADIUS as i128;
        let limit: i128 = MAX_EXTENT as i128;
        let vmax: i128 = MAX_VELOCITY as i128;
        -vmax <= vx && vx <= vmax && -vmax <= vy && vy <= vmax && 0 <= x && x <= limit && radius
            - d <= y && y <= limit - radius + d && (vy >= 0 || y >= radius) && (vy <= 0 || y
            <= limit - radius)
    }

    pub fn new(position: Vector2, velocity: Vector2) -> (r: Ball)
        ensures
            r.position == position,
            r.velocity == velocity,
    {
        Ball { position, velocity }
    }
}

/// Advances the ball by one frame in `playfield` and reports the side it has left the
/// playfield through, if any. The ball is not moved back: scoring and re-centring are
/// the caller's part.
pub fn advance_ball(ball: &mut Ball, playfield: &Playfield) -> (r: Option<ExitSide>)
    requires
        old(ball).wf(),
        playfield.wf(),
    ensures
        *final(ball) == old(ball).advanced(playfield.height as int),
        final(ball).position.x == old(ball).position.x + ball_travel(old(ball).velocity.x as int),
        final(ball).position.y == old(ball).position.y + ball_travel(old(ball).velocity.y as int),
        final(ball).velocity.x == old(ball).velocity.x,
        final(ball).velocity.y == (if in_wall_band(
            final(ball).position.y as int,
            playfield.height as int,
        ) {
            -old(ball).velocity.y
        } else {
            old(ball).velocity.y as int
        }),
        r == exit_side(final(ball).position.x as int, playfield.width as int),
{
    ball.position = ball.position.add_scaled(ball.velocity, BALL_SPEED);
    if ball.position.y <= BALL_RADIUS || ball.position.y >= playfield.height - BALL_RADIUS {
        ball.velocity.y = -ball.velocity.y;
    }
    if ball.position.x < 0 {
        Some(ExitSide::Left)
    } else if ball.position.x > playfield.width {
        Some(ExitSide::Right)
    } else {
        None
    }
}

/// Puts the ball back at the centre of `playfield`, keeping its velocity.
pub fn reset_ball(ball: &mut Ball, playfield: &Playfield)
    requires
        playfield.wf(),
    ensures
        *final(ball) == old(ball).recentered(*playfield),
        final(ball).position.x == playfield.width / 2,
        final(ball).position.y == playfield.height / 2,
        final(ball).velocity == old(ball).velocity,
{
    ball.position = Vector2::new(playfield.width / 2, playfield.height / 2);
}

} // verus!
