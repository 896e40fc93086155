//! Properties of the simulation over many frames and over all inputs.
use vstd::prelude::*;
use crate::ball::{in_wall_band, Ball};
use crate::collision::collides_spec;
use crate::game::{FrameInput, GameState};
use crate::geometry::{abs, Vector2};
use crate::paddle::{paddle_travel, paddle_y_after};
use crate::playfield::Playfield;
use crate::{PADDLE_HALF_HEIGHT, PADDLE_HALF_WIDTH, PADDLE_HEIGHT};

verus! {

/// Height of a paddle started at `y` after `n` frames of the same input, each lasting
/// `elapsed` microseconds, in a playfield of height `h`.
pub open spec fn paddle_y_repeated(
    y: int,
    up: bool,
    down: bool,
    elapsed: int,
    h: int,
    n: nat,
) -> int
    decreases n,
{
    if n == 0 {
        y
    } else {
        paddle_y_after(paddle_y_repeated(y, up, down, elapsed, h, (n - 1) as nat), up, down, elapsed, h)
    }
}

/// A paddle that only ever goes up (or only down) moves by one travel per frame until
/// it reaches the top (or bottom) limit, and stays there: it never passes the limit,
/// and once the frames' travel covers the distance to the limit, it is at the limit.
pub proof fn lemma_paddle_clamping(y: int, up: bool, elapsed: int, h: int, n: nat)
    requires
        PADDLE_HEIGHT <= h,
        PADDLE_HALF_HEIGHT <= y <= h - PADDLE_HALF_HEIGHT,
        elapsed >= 0,
    ensures
        PADDLE_HALF_HEIGHT <= paddle_y_repeated(y, up, !up, elapsed, h, n) <= h - PADDLE_HALF_HEIGHT,
        up ==> paddle_y_repeated(y, up, !up, elapsed, h, n) == if y - n * paddle_travel(elapsed)
            < PADDLE_HALF_HEIGHT {
            PADDLE_HALF_HEIGHT as int
        } else {
            y - n * paddle_travel(elapsed)
        },
        !up ==> paddle_y_repeated(y, up, !up, elapsed, h, n) == if y + n * paddle_travel(elapsed)
            > h - PADDLE_HALF_HEIGHT {
            h - PADDLE_HALF_HEIGHT
        } else {
            y + n * paddle_travel(elapsed)
        },
        up && n * paddle_travel(elapsed) >= y - PADDLE_HALF_HEIGHT ==> paddle_y_repeated(
            y,
            up,
            !up,
            elapsed,
            h,
            n,
        ) == PADDLE_HALF_HEIGHT,
        !up && n * paddle_travel(elapsed) >= h - PADDLE_HALF_HEIGHT - y ==> paddle_y_repeated(
            y,
            up,
            !up,
            elapsed,
            h,
            n,
        ) == h - PADDLE_HALF_HEIGHT,
    decreases n,
{
    let t = paddle_travel(elapsed);
    assert(t >= 0);
    if n > 0 {
        lemma_paddle_clamping(y, up, elapsed, h, (n - 1) as nat);
        assert((n - 1) * t + t == n * t) by (nonlinear_arith);
    }
}

/// A frame that ends with the ball in a wall band negates its vertical velocity exactly
/// once. When the next frame carries the ball out of both bands, that frame keeps the
/// velocity, so the reflection is not undone and the ball travels the other way.
pub proof fn lemma_wall_reflection_single_flip(ball: Ball, playfield: Playfield)
    requires
        ball.wf(),
        playfield.wf(),
        in_wall_band(ball.advanced(playfield.height as int).position.y as int, playfield.height as int),
        !in_wall_band(
            ball.advanced(playfield.height as int).advanced(playfield.height as int).position.y as int,
            playfield.height as int,
        ),
    ensures
        ball.advanced(playfield.height as int).velocity.y == -ball.velocity.y,
        ball.advanced(playfield.height as int).advanced(playfield.height as int).velocity.y
            == -ball.velocity.y,
{
}

/// A ball whose centre is exactly half a paddle's width away horizontally is not in
/// contact; one that is any amount closer, and vertically within half the paddle's
/// height, is.
pub proof fn lemma_collision_tie_break(ball: Vector2, paddle: Vector2, eps: int)
    requires
        abs(ball.y - paddle.y) < PADDLE_HALF_HEIGHT,
        0 < eps <= PADDLE_HALF_WIDTH,
    ensures
        abs(ball.x - paddle.x) == PADDLE_HALF_WIDTH ==> !collides_spec(ball, paddle),
        abs(ball.x - paddle.x) == PADDLE_HALF_WIDTH - eps ==> collides_spec(ball, paddle),
{
}

/// The state after running the frames of `inputs` in order from `s`.
pub open spec fn run(s: GameState, inputs: Seq<FrameInput>) -> GameState
    decreases inputs.len(),
{
    if inputs.len() == 0 {
        s
    } else {
        run(s, inputs.drop_last()).stepped(inputs.last())
    }
}

/// Every input of `inputs` has a well-formed playfield.
pub open spec fn inputs_wf(inputs: Seq<FrameInput>) -> bool {
    forall|i: int| 0 <= i < inputs.len() ==> (#[trigger] inputs[i]).playfield.wf()
}

/// In one frame each score either stays or grows by one, and at most one of them grows.
pub proof fn lemma_score_step(s: GameState, input: FrameInput)
    requires
        s.wf(),
        input.playfield.wf(),
        s.score.player_1 < u64::MAX,
        s.score.player_2 < u64::MAX,
    ensures
        s.stepped(input).score.player_1 == s.score.player_1 || s.stepped(input).score.player_1
            == s.score.player_1 + 1,
        s.stepped(input).score.player_2 == s.score.player_2 || s.stepped(input).score.player_2
            == s.score.player_2 + 1,
        s.stepped(input).score.player_1 + s.stepped(input).score.player_2 <= s.score.player_1
            + s.score.player_2 + 1,
{
}

/// Over a run of frames the state stays well-formed and each score grows by at most
/// one per frame.
pub proof fn lemma_run_bounds(s: GameState, inputs: Seq<FrameInput>)
    requires
        s.wf(),
        inputs_wf(inputs),
        s.score.player_1 + inputs.len() < u64::MAX,
        s.score.player_2 + inputs.len() < u64::MAX,
    ensures
        run(s, inputs).wf(),
        s.score.player_1 <= run(s, inputs).score.player_1 <= s.score.player_1 + inputs.len(),
        s.score.player_2 <= run(s, inputs).score.player_2 <= s.score.player_2 + inputs.len(),
    decreases inputs.len(),
{
    if inputs.len() > 0 {
        let prev = inputs.drop_last();
        assert(inputs_wf(prev)) by {
            assert forall|i: int| 0 <= i < prev.len() implies (#[trigger] prev[i]).playfield.wf() by {
                assert(prev[i] == inputs[i]);
            }
        }
        assert(inputs.last() == inputs[inputs.len() - 1]);
        lemma_run_bounds(s, prev);
        crate::game::lemma_stepped_wf(run(s, prev), inputs.last());
        lemma_score_step(run(s, prev), inputs.last());
    }
}

/// Along any run of frames both scores never decrease, and from each frame to the next
/// each grows by at most one.
pub proof fn lemma_score_monotone(s: GameState, inputs: Seq<FrameInput>)
    requires
        s.wf(),
        inputs_wf(inputs),
        s.score.player_1 + inputs.len() < u64::MAX,
        s.score.player_2 + inputs.len() < u64::MAX,
    ensures
        forall|k: int|
            0 <= k < inputs.len() ==> {
                let a = #[trigger] run(s, inputs.take(k));
                let b = run(s, inputs.take(k + 1));
                &&& a.score.player_1 <= b.score.player_1 <= a.score.player_1 + 1
                &&& a.score.player_2 <= b.score.player_2 <= a.score.player_2 + 1
            },
{
    assert forall|k: int| 0 <= k < inputs.len() implies {
        let a = #[trigger] run(s, inputs.take(k));
        let b = run(s, inputs.take(k + 1));
        &&& a.score.player_1 <= b.score.player_1 <= a.score.player_1 + 1
        &&& a.score.player_2 <= b.score.player_2 <= a.score.player_2 + 1
    } by {
        let pre = inputs.take(k);
        let next = inputs.take(k + 1);
        assert(next.drop_last() =~= pre);
        assert(next.last() == inputs[k]);
        assert(inputs_wf(pre)) by {
            assert forall|i: int| 0 <= i < pre.len() implies (#[trigger] pre[i]).playfield.wf() by {
                assert(pre[i] == inputs[i]);
            }
        }
        lemma_run_bounds(s, pre);
        lemma_score_step(run(s, pre), inputs[k]);
    }
}

/// Two runs from the same state on the same frames go through the same states.
pub proof fn lemma_determinism(a: GameState, b: GameState, inputs_a: Seq<FrameInput>, inputs_b: Seq<FrameInput>)
    requires
        a == b,
        inputs_a == inputs_b,
    ensures
        forall|k: int|
            0 <= k <= inputs_a.len() ==> #[trigger] run(a, inputs_a.take(k)) == run(b, inputs_b.take(k)),
{
}

} // verus!
