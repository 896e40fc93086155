//! The game state and the per-frame simulation step.
use vstd::prelude::*;
use crate::ball::{advance_ball, exit_side, reset_ball, Ball, ExitSide};
use crate::collision::{collides, collides_spec};
use crate::geometry::{abs, Vector2};
use crate::paddle::{move_paddle, Paddle};
use crate::playfield::{InvalidInputError, Playfield};
use crate::random::random_below;
use crate::{MAX_VELOCITY, PADDLE_INSET, UNIT};

verus! {

/// The two players' points.
#[derive(Clone, Copy, Debug, PartialEq, Eq, Structural)]
pub struct Score {
    pub player_1: u64,
    pub player_2: u64,
}

/// What the host hands the simulation each frame: the four inputs, the time since the
/// previous frame, and the current size of the playfield.
#[derive(Clone, Copy, Debug, PartialEq, Eq, Structural)]
pub struct FrameInput {
    pub player_1_up: bool,
    pub player_1_down: bool,
    pub player_2_up: bool,
    pub player_2_down: bool,
    pub elapsed_micros: u32,
    pub playfield: Playfield,
}

/// Everything the simulation keeps between frames.
#[derive(Clone, Copy, Debug, PartialEq, Eq, Structural)]
pub struct GameState {
    pub player_1: Paddle,
    pub player_2: Paddle,
    pub ball: Ball,
    pub score: Score,
}

/// Both velocity components are within the largest magnitude handled.
pub open spec fn velocity_in_range(v: Vector2) -> bool {
    abs(v.x as int) <= MAX_VELOCITY && abs(v.y as int) <= MAX_VELOCITY
}

impl GameState {
    pub open spec fn wf(self) -> bool {
        self.player_1.wf() && self.player_2.wf() && self.ball.wf()
    }

    pub fn is_well_formed(&self) -> (r: bool)
        ensures
            r == self.wf(),
    {
        self.player_1.is_well_formed() && self.player_2.is_well_formed()
            && self.ball.is_well_formed()
    }

    /// The starting state: each paddle centred vertically at its inset from its side,
    /// the ball at the centre with `velocity`, and no points.
    pub open spec fn initial(playfield: Playfield, velocity: Vector2) -> GameState {
        let mid_y = (playfield.height / 2) as i64;
        GameState {
            player_1: Paddle { position: Vector2 { x: PADDLE_INSET, y: mid_y } },
            player_2: Paddle {
                position: Vector2 { x: (playfield.width - PADDLE_INSET) as i64, y: mid_y },
            },
            ball: Ball {
                position: Vector2 { x: (playfield.width / 2) as i64, y: mid_y },
                velocity,
            },
            score: Score { player_1: 0, player_2: 0 },
        }
    }

    /// The score after the ball left through `side`: a point to the player on the
    /// other side.
    pub open spec fn scored(self, side: Option<ExitSide>) -> Score {
        match side {
            Some(ExitSide::Left) => Score {
                player_1: self.score.player_1,
                player_2: (self.score.player_2 + 1) as u64,
            },
            Some(ExitSide::Right) => Score {
                player_1: (self.score.player_1 + 1) as u64,
                player_2: self.score.player_2,
            },
            None => self.score,
        }
    }

    /// The state after one frame: both paddles move, then the ball advances; if it
    /// left sideways the player on the other side scores and the ball goes back to
    /// the centre; last, contact with either paddle negates its horizontal velocity.
    pub open spec fn stepped(self, input: FrameInput) -> GameState {
        let pf = input.playfield;
        let p1 = self.player_1.moved(
            input.player_1_up,
            input.player_1_down,
            input.elapsed_micros,
            pf.height,
        );
        let p2 = self.player_2.moved(
            input.player_2_up,
            input.player_2_down,
            input.elapsed_micros,
            pf.height,
        );
        let moved = self.ball.advanced(pf.height as int);
        let side = exit_side(moved.position.x as int, pf.width as int);
        let placed = if side is Some {
            moved.recentered(pf)
        } else {
            moved
        };
        let ball = if collides_spec(placed.position, p1.position) || collides_spec(
            placed.position,
            p2.position,
        ) {
            placed.reflected_horizontally()
        } else {
            placed
        };
        GameState { player_1: p1, player_2: p2, ball, score: self.scored(side) }
    }

    /// A new game in `playfield` whose ball starts with `velocity`.
    pub fn new(playfield: Playfield, velocity: Vector2) -> (r: Result<GameState, InvalidInputError>)
        ensures
            r matches Ok(s) ==> playfield.wf() && velocity_in_range(velocity) && s
                == GameState::initial(playfield, velocity) && s.wf(),
            r matches Err(e) ==> (e == InvalidInputError::PlayfieldOutOfRange && !playfield.wf())
                || (e == InvalidInputError::VelocityOutOfRange && playfield.wf()
                && !velocity_in_range(velocity)),
    {
        if !playfield.is_valid() {
            return Err(InvalidInputError::PlayfieldOutOfRange);
        }
        if velocity.x < -MAX_VELOCITY || velocity.x > MAX_VELOCITY || velocity.y < -MAX_VELOCITY
            || velocity.y > MAX_VELOCITY {
            return Err(InvalidInputError::VelocityOutOfRange);
        }
        let mid_y: i64 = playfield.height / 2;
        Ok(
            GameState {
                player_1: Paddle::new(PADDLE_INSET, mid_y),
                player_2: Paddle::new(playfield.width - PADDLE_INSET, mid_y),
                ball: Ball::new(Vector2::new(playfield.width / 2, mid_y), velocity),
                score: Score { player_1: 0, player_2: 0 },
            },
        )
    }

    /// A new game in `playfield` whose ball starts with each velocity component drawn
    /// at random from `[0, 1)`.
    pub fn new_random(playfield: Playfield) -> (r: Result<GameState, InvalidInputError>)
        ensures
            r.is_ok() <==> playfield.wf(),
            r matches Ok(s) ==> s == GameState::initial(playfield, s.ball.velocity) && s.wf()
                && 0 <= s.ball.velocity.x < UNIT && 0 <= s.ball.velocity.y < UNIT,
            r matches Err(e) ==> e == InvalidInputError::PlayfieldOutOfRange,
    {
        if !playfield.is_valid() {
            return Err(InvalidInputError::PlayfieldOutOfRange);
        }
        let vx = random_below(UNIT);
        let vy = random_below(UNIT);
        GameState::new(playfield, Vector2::new(vx, vy))
    }

    /// Runs one frame of the simulation on `input`.
    pub fn step(&mut self, input: &FrameInput)
        requires
            old(self).wf(),
            input.playfield.wf(),
            old(self).score.player_1 < u64::MAX,
            old(self).score.player_2 < u64::MAX,
        ensures
            *final(self) == old(self).stepped(*input),
            final(self).wf(),
    {
        let pf = input.playfield;
        move_paddle(
            &mut self.player_1,
            input.player_1_up,
            input.player_1_down,
            input.elapsed_micros,
            pf.height,
        );
        move_paddle(
            &mut self.player_2,
            input.player_2_up,
            input.player_2_down,
            input.elapsed_micros,
            pf.height,
        );
        let side = advance_ball(&mut self.ball, &pf);
        match side {
            Some(ExitSide::Left) => {
                self.score.player_2 = self.score.player_2 + 1;
                reset_ball(&mut self.ball, &pf);
            },
            Some(ExitSide::Right) => {
                self.score.player_1 = self.score.player_1 + 1;
                reset_ball(&mut self.ball, &pf);
            },
            None => {},
        }
        if collides(self.ball.position, self.player_1.position) || collides(
            self.ball.position,
            self.player_2.position,
        ) {
            self.ball.velocity.x = -self.ball.velocity.x;
        }
        proof {
            lemma_stepped_wf(*old(self), *input);
        }
    }
}

/// One frame keeps a well-formed state well-formed.
pub proof fn lemma_stepped_wf(s: GameState, input: FrameInput)
    requires
        s.wf(),
        input.playfield.wf(),
    ensures
        s.stepped(input).wf(),
{
}

} // verus!
