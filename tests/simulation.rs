use pong_core::ball::{advance_ball, reset_ball, Ball, ExitSide};
use pong_core::collision::collides;
use pong_core::game::{FrameInput, GameState, Score};
use pong_core::geometry::{clamp, Vector2};
use pong_core::paddle::{move_paddle, Paddle};
use pong_core::playfield::{InvalidInputError, Playfield};
use pong_core::{BALL_RADIUS, PADDLE_HALF_HEIGHT, PADDLE_HALF_WIDTH, PADDLE_INSET, UNIT};

fn px(v: i64) -> i64 {
    v * UNIT
}

fn field() -> Playfield {
    Playfield::new(px(800), px(600)).unwrap()
}

fn idle(elapsed_micros: u32) -> FrameInput {
    FrameInput {
        player_1_up: false,
        player_1_down: false,
        player_2_up: false,
        player_2_down: false,
        elapsed_micros,
        playfield: field(),
    }
}

#[test]
fn clamp_saturates_at_both_bounds() {
    let mut v = -5;
    clamp(&mut v, 0, 10);
    assert_eq!(v, 0);
    let mut v = 15;
    clamp(&mut v, 0, 10);
    assert_eq!(v, 10);
    let mut v = 7;
    clamp(&mut v, 0, 10);
    assert_eq!(v, 7);
    let mut v = 10;
    clamp(&mut v, 0, 10);
    assert_eq!(v, 10);
}

#[test]
fn add_scaled_moves_by_scaled_vector() {
    let p = Vector2::new(3, -4).add_scaled(Vector2::new(2, 5), 10);
    assert_eq!(p, Vector2::new(23, 46));
}

#[test]
fn paddle_moves_by_speed_times_elapsed() {
    let mut p = Paddle::new(px(30), px(300));
    // 450 px/s for 0.1 s is 45 px.
    move_paddle(&mut p, true, false, 100_000, px(600));
    assert_eq!(p.position, Vector2::new(px(30), px(255)));
    move_paddle(&mut p, false, true, 200_000, px(600));
    assert_eq!(p.position.y, px(345));
}

#[test]
fn paddle_inputs_cancel_when_both_held() {
    let mut p = Paddle::new(px(30), px(300));
    move_paddle(&mut p, true, true, 500_000, px(600));
    assert_eq!(p.position.y, px(300));
}

#[test]
fn paddle_is_clamped_to_playfield() {
    let mut p = Paddle::new(px(30), px(100));
    move_paddle(&mut p, true, false, 1_000_000, px(600));
    assert_eq!(p.position.y, PADDLE_HALF_HEIGHT);
    let mut p = Paddle::new(px(30), px(500));
    move_paddle(&mut p, false, true, 1_000_000, px(600));
    assert_eq!(p.position.y, px(600) - PADDLE_HALF_HEIGHT);
}

#[test]
fn paddle_held_up_converges_to_top_and_stays() {
    let mut p = Paddle::new(px(30), px(300));
    let mut ys = Vec::new();
    for _ in 0..40 {
        move_paddle(&mut p, true, false, 16_667, px(600));
        assert!(p.position.y >= PADDLE_HALF_HEIGHT);
        ys.push(p.position.y);
    }
    assert_eq!(p.position.y, PADDLE_HALF_HEIGHT);
    assert!(ys.windows(2).all(|w| w[1] <= w[0]));
    let mut p = Paddle::new(px(30), px(300));
    for _ in 0..40 {
        move_paddle(&mut p, false, true, 16_667, px(600));
        assert!(p.position.y <= px(600) - PADDLE_HALF_HEIGHT);
    }
    assert_eq!(p.position.y, px(600) - PADDLE_HALF_HEIGHT);
}

#[test]
fn ball_moves_by_velocity_times_speed() {
    let mut b = Ball::new(Vector2::new(px(400), px(300)), Vector2::new(UNIT / 2, -UNIT));
    let side = advance_ball(&mut b, &field());
    assert_eq!(side, None);
    assert_eq!(b.position, Vector2::new(px(405), px(290)));
    assert_eq!(b.velocity, Vector2::new(UNIT / 2, -UNIT));
}

#[test]
fn ball_reflects_off_top_wall_once() {
    let mut b = Ball::new(Vector2::new(px(400), px(20)), Vector2::new(0, -UNIT));
    advance_ball(&mut b, &field());
    assert_eq!(b.position.y, px(10));
    assert!(b.position.y <= BALL_RADIUS);
    assert_eq!(b.velocity.y, UNIT);
    advance_ball(&mut b, &field());
    assert_eq!(b.position.y, px(20));
    assert_eq!(b.velocity.y, UNIT);
}

#[test]
fn ball_reflects_off_bottom_wall() {
    let mut b = Ball::new(Vector2::new(px(400), px(580)), Vector2::new(0, UNIT));
    advance_ball(&mut b, &field());
    assert_eq!(b.position.y, px(590));
    assert_eq!(b.velocity.y, -UNIT);
}

#[test]
fn ball_contact_band_edge_counts_as_contact() {
    let mut b = Ball::new(Vector2::new(px(400), px(26)), Vector2::new(0, -UNIT));
    advance_ball(&mut b, &field());
    assert_eq!(b.position.y, BALL_RADIUS);
    assert_eq!(b.velocity.y, UNIT);
}

#[test]
fn ball_exit_sides_are_reported() {
    let mut b = Ball::new(Vector2::new(px(5), px(300)), Vector2::new(-UNIT, 0));
    assert_eq!(advance_ball(&mut b, &field()), Some(ExitSide::Left));
    let mut b = Ball::new(Vector2::new(px(795), px(300)), Vector2::new(UNIT, 0));
    assert_eq!(advance_ball(&mut b, &field()), Some(ExitSide::Right));
    let mut b = Ball::new(Vector2::new(px(10), px(300)), Vector2::new(-UNIT, 0));
    assert_eq!(advance_ball(&mut b, &field()), None);
    assert_eq!(b.position.x, 0);
}

#[test]
fn reset_ball_centres_and_keeps_velocity() {
    let mut b = Ball::new(Vector2::new(-px(3), px(42)), Vector2::new(-UNIT, UNIT / 4));
    reset_ball(&mut b, &field());
    assert_eq!(b.position, Vector2::new(px(400), px(300)));
    assert_eq!(b.velocity, Vector2::new(-UNIT, UNIT / 4));
}

#[test]
fn collides_concrete_scenario() {
    assert!(collides(Vector2::new(px(30), px(330)), Vector2::new(px(30), px(300))));
}

#[test]
fn collision_boundary_touch_is_no_contact() {
    let paddle = Vector2::new(px(30), px(300));
    assert!(!collides(Vector2::new(px(30) + PADDLE_HALF_WIDTH, px(300)), paddle));
    assert!(!collides(Vector2::new(px(30) - PADDLE_HALF_WIDTH, px(300)), paddle));
    assert!(collides(Vector2::new(px(30) + PADDLE_HALF_WIDTH - 1, px(300)), paddle));
    assert!(collides(Vector2::new(px(30) - PADDLE_HALF_WIDTH + 1, px(300)), paddle));
    assert!(!collides(Vector2::new(px(30), px(300) + PADDLE_HALF_HEIGHT), paddle));
    assert!(collides(Vector2::new(px(30), px(300) + PADDLE_HALF_HEIGHT - 1), paddle));
}

#[test]
fn collides_handles_extreme_coordinates() {
    assert!(!collides(Vector2::new(i64::MIN, i64::MIN), Vector2::new(i64::MAX, i64::MAX)));
}

#[test]
fn playfield_new_validates_extent() {
    assert_eq!(Playfield::new(px(800), px(600)), Ok(Playfield { width: px(800), height: px(600) }));
    assert_eq!(Playfield::new(0, px(600)), Err(InvalidInputError::PlayfieldOutOfRange));
    assert_eq!(Playfield::new(px(800), px(139)), Err(InvalidInputError::PlayfieldOutOfRange));
    assert!(Playfield::new(px(800), px(140)).is_ok());
}

#[test]
fn new_game_places_paddles_and_ball() {
    let s = GameState::new(field(), Vector2::new(-UNIT, 0)).unwrap();
    assert_eq!(s.player_1.position, Vector2::new(PADDLE_INSET, px(300)));
    assert_eq!(s.player_2.position, Vector2::new(px(800) - PADDLE_INSET, px(300)));
    assert_eq!(s.ball.position, Vector2::new(px(400), px(300)));
    assert_eq!(s.ball.velocity, Vector2::new(-UNIT, 0));
    assert_eq!(s.score, Score { player_1: 0, player_2: 0 });
}

#[test]
fn new_game_rejects_bad_input() {
    let bad = Playfield { width: px(800), height: px(10) };
    assert_eq!(GameState::new(bad, Vector2::new(0, 0)), Err(InvalidInputError::PlayfieldOutOfRange));
    assert_eq!(
        GameState::new(field(), Vector2::new(px(1001), 0)),
        Err(InvalidInputError::VelocityOutOfRange)
    );
    assert_eq!(GameState::new_random(bad), Err(InvalidInputError::PlayfieldOutOfRange));
}

#[test]
fn new_random_draws_unit_velocity() {
    for _ in 0..50 {
        let s = GameState::new_random(field()).unwrap();
        assert!(0 <= s.ball.velocity.x && s.ball.velocity.x < UNIT);
        assert!(0 <= s.ball.velocity.y && s.ball.velocity.y < UNIT);
        assert_eq!(s.ball.position, Vector2::new(px(400), px(300)));
    }
}

#[test]
fn left_exit_scores_for_player_two_and_recentres() {
    let mut s = GameState::new(field(), Vector2::new(-UNIT, 0)).unwrap();
    // keep the left paddle out of the ball's path
    s.player_1.position.y = PADDLE_HALF_HEIGHT;
    for _ in 0..40 {
        s.step(&idle(16_667));
        assert_eq!(s.score, Score { player_1: 0, player_2: 0 });
    }
    assert_eq!(s.ball.position.x, 0);
    s.step(&idle(16_667));
    assert_eq!(s.score, Score { player_1: 0, player_2: 1 });
    assert_eq!(s.ball.position, Vector2::new(px(400), px(300)));
    assert_eq!(s.ball.velocity, Vector2::new(-UNIT, 0));
}

#[test]
fn right_exit_scores_for_player_one() {
    let mut s = GameState::new(field(), Vector2::new(UNIT, 0)).unwrap();
    s.player_2.position.y = PADDLE_HALF_HEIGHT;
    for _ in 0..41 {
        s.step(&idle(16_667));
    }
    assert_eq!(s.score, Score { player_1: 1, player_2: 0 });
    assert_eq!(s.ball.position, Vector2::new(px(400), px(300)));
}

#[test]
fn paddle_contact_reverses_horizontal_velocity_only() {
    let mut s = GameState::new(field(), Vector2::new(-UNIT, UNIT / 10)).unwrap();
    s.ball.position = Vector2::new(px(50), px(300));
    s.step(&idle(0));
    assert_eq!(s.ball.position, Vector2::new(px(40), px(301)));
    assert_eq!(s.ball.velocity, Vector2::new(UNIT, UNIT / 10));
    assert_eq!(s.score, Score { player_1: 0, player_2: 0 });
}

#[test]
fn step_moves_both_paddles() {
    let mut s = GameState::new(field(), Vector2::new(0, 0)).unwrap();
    let input = FrameInput {
        player_1_up: true,
        player_1_down: false,
        player_2_up: false,
        player_2_down: true,
        elapsed_micros: 100_000,
        playfield: field(),
    };
    s.step(&input);
    assert_eq!(s.player_1.position.y, px(255));
    assert_eq!(s.player_2.position.y, px(345));
}

fn scripted_inputs(n: usize) -> Vec<FrameInput> {
    (0..n)
        .map(|i| FrameInput {
            player_1_up: i % 3 == 0,
            player_1_down: i % 5 == 0,
            player_2_up: i % 7 < 3,
            player_2_down: i % 2 == 0,
            elapsed_micros: 10_000 + (i as u32 % 13) * 1_000,
            playfield: field(),
        })
        .collect()
}

#[test]
fn scores_never_decrease_and_grow_by_at_most_one() {
    let mut s = GameState::new(field(), Vector2::new(3 * UNIT, 2 * UNIT)).unwrap();
    let mut total = 0;
    for input in scripted_inputs(2000) {
        let before = s.score;
        s.step(&input);
        assert!(s.score.player_1 == before.player_1 || s.score.player_1 == before.player_1 + 1);
        assert!(s.score.player_2 == before.player_2 || s.score.player_2 == before.player_2 + 1);
        assert!(s.score.player_1 + s.score.player_2 <= before.player_1 + before.player_2 + 1);
        total = s.score.player_1 + s.score.player_2;
    }
    assert!(total > 0);
}

#[test]
fn identical_runs_are_identical() {
    let start = GameState::new(field(), Vector2::new(UNIT * 7 / 10, UNIT * 3 / 10)).unwrap();
    let inputs = scripted_inputs(500);
    let mut a = start;
    let mut b = start;
    for input in &inputs {
        a.step(input);
        b.step(input);
        assert_eq!(a, b);
    }
}

#[test]
fn well_formedness_checks() {
    let s = GameState::new(field(), Vector2::new(UNIT, -UNIT)).unwrap();
    assert!(s.is_well_formed());
    let mut t = s;
    t.player_1.position.y = PADDLE_HALF_HEIGHT - 1;
    assert!(!t.is_well_formed());
    // moving up while already above the top band
    let b = Ball::new(Vector2::new(px(400), px(10)), Vector2::new(0, -UNIT));
    assert!(!b.is_well_formed());
    // moving down out of the top band, within one frame's travel of it
    let b = Ball::new(Vector2::new(px(400), px(10)), Vector2::new(0, UNIT));
    assert!(b.is_well_formed());
    let b = Ball::new(Vector2::new(-1, px(300)), Vector2::new(0, 0));
    assert!(!b.is_well_formed());
    assert!(Paddle::new(px(30), px(300)).is_well_formed());
}
