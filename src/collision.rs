//! Overlap of the ball's centre with a paddle's box.
use vstd::prelude::*;
use crate::geometry::{abs, Vector2};
use crate::{PADDLE_HALF_HEIGHT, PADDLE_HALF_WIDTH};

verus! {

/// The ball's centre lies strictly inside the box of the paddle centred at `paddle`;
/// touching an edge exactly is no contact.
pub open spec fn collides_spec(ball: Vector2, paddle: Vector2) -> bool {
    abs(ball.x - paddle.x) < PADDLE_HALF_WIDTH && abs(ball.y - paddle.y) < PADDLE_HALF_HEIGHT
}

/// Whether the ball centred at `ball` touches the paddle centred at `paddle`.
pub fn collides(ball: Vector2, paddle: Vector2) -> (r: bool)
    ensures
        r == collides_spec(ball, paddle),
{
    let dx: i128 = ball.x as i128 - paddle.x as i128;
    let dy: i128 = ball.y as i128 - paddle.y as i128;
    let adx: i128 = if dx < 0 { -dx } else { dx };
    let ady: i128 = if dy < 0 { -dy } else { dy };
    adx < PADDLE_HALF_WIDTH as i128 && ady < PADDLE_HALF_HEIGHT as i128
}

} // verus!
