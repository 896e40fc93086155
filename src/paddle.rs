//! Input-driven vertical motion of a paddle.
use vstd::prelude::*;
use crate::geometry::{clamp, clamped, Vector2};
use crate::{MAX_EXTENT, PADDLE_HALF_HEIGHT, PADDLE_HEIGHT, PADDLE_SPEED};

verus! {

/// A paddle, by the position of its centre.
#[derive(Clone, Copy, Debug, PartialEq, Eq, Structural)]
pub struct Paddle {
    pub position: Vector2,
}

/// Distance a paddle covers in `elapsed` microseconds.
pub open spec fn paddle_travel(elapsed: int) -> int {
    PADDLE_SPEED * elapsed
}

/// Where a paddle centred at height `y` ends up: up by one travel if `up`, down by one
/// if `down` (both cancel out), then clamped so that the paddle stays inside a playfield
/// of height `h`.
pub open spec fn paddle_y_after(y: int, up: bool, down: bool, elapsed: int, h: int) -> int {
    let rise = if up { paddle_travel(elapsed) } else { 0 };
    let fall = if down { paddle_travel(elapsed) } else { 0 };
    clamped(y - rise + fall, PADDLE_HALF_HEIGHT as int, h - PADDLE_HALF_HEIGHT)
}

impl Paddle {
    /// The paddle is within the largest playfield, its full height inside it.
    pub open spec fn wf(self) -> bool {
        -MAX_EXTENT <= self.position.x <= MAX_EXTENT && PADDLE_HALF_HEIGHT <= self.position.y
            <= MAX_EXTENT - PADDLE_HALF_HEIGHT
    }

    /// The paddle after one frame of input.
    pub open spec fn moved(self, up: bool, down: bool, elapsed: u32, height: i64) -> Paddle {
        Paddle {
            position: Vector2 {
                x: self.position.x,
                y: paddle_y_after(
                    self.position.y as int,
                    up,
                    down,
                    elapsed as int,
                    height as int,
                ) as i64,
            },
        }
    }

    pub fn is_well_formed(&self) -> (r: bool)
        ensures
            r == self.wf(),
    {
        -MAX_EXTENT <= self.position.x && self.position.x <= MAX_EXTENT && PADDLE_HALF_HEIGHT
            <= self.position.y && self.position.y <= MAX_EXTENT - PADDLE_HALF_HEIGHT
    }

    pub fn new(x: i64, y: i64) -> (r: Paddle)
        ensures
            r.position == (Vector2 { x, y }),
    {
        Paddle { position: Vector2::new(x, y) }
    }
}

/// Moves a paddle by one frame of input held for `elapsed_micros`, keeping it inside a
/// playfield of height `playfield_height`.
pub fn move_paddle(
    paddle: &mut Paddle,
    up: bool,
    down: bool,
    elapsed_micros: u32,
    playfield_height: i64,
)
    requires
        old(paddle).wf(),
        PADDLE_HEIGHT <= playfield_height <= MAX_EXTENT,
    ensures
        *final(paddle) == old(paddle).moved(up, down, elapsed_micros, playfield_height),
        final(paddle).position.x == old(paddle).position.x,
        final(paddle).position.y == paddle_y_after(
            old(paddle).position.y as int,
            up,
            down,
            elapsed_micros as int,
            playfield_height as int,
        ),
        PADDLE_HALF_HEIGHT <= final(paddle).position.y <= playfield_height - PADDLE_HALF_HEIGHT,
        final(paddle).wf(),
{
    let travel: i64 = PADDLE_SPEED * (elapsed_micros as i64);
    let mut y: i64 = paddle.position.y;
    if up {
        y = y - travel;
    }
    if down {
        y = y + travel;
    }
    clamp(&mut y, PADDLE_HALF_HEIGHT, playfield_height - PADDLE_HALF_HEIGHT);
    paddle.position.y = y;
}

} // verus!
