use pong_core::ball::Ball;
use pong_core::config::{GameConfig, Side, CENTER_X, CENTER_Y, COUNTDOWN_TIME};
use pong_core::paddle::Paddle;
use pong_core::score::Score;
use pong_core::session::{countdown_digit, MatchPhase, Session, TickInput};

fn cfg() -> GameConfig {
    GameConfig::standard()
}

fn quiet() -> TickInput {
    TickInput::default()
}

/// A session in the middle of a round, with the given ball and
/// score.
fn mid_round(ball: Ball, score: Score) -> Session {
    Session {
        cfg: cfg(),
        ball,
        left_paddle: Paddle { side: Side::Left, y: CENTER_Y },
        right_paddle: Paddle { side: Side::Right, y: CENTER_Y },
        score,
        phase: MatchPhase::Active,
    }
}

#[test]
fn countdown_gates_play_at_sixty_hz() {
    let mut s = Session::new(cfg());
    // 180 frames of 1/60 s: the countdown is still running after
    // each of them — play enabled only once the accumulated time
    // exceeds 3 seconds — and the ball stays frozen.
    for k in 1..=180i64 {
        let ev = s.tick(&quiet(), 1_000);
        assert!(!ev.countdown_end);
        assert_eq!(s.phase, MatchPhase::Counting { remaining: COUNTDOWN_TIME - 1_000 * k });
        assert_eq!(s.ball.x, CENTER_X);
    }
    // The 181st frame is the first whose accumulated time exceeds
    // 3 s: it announces the countdown's end and plays.
    let ev = s.tick(&quiet(), 1_000);
    assert!(ev.countdown_end);
    assert_eq!(s.phase, MatchPhase::Active);
    assert_eq!(s.ball.x, CENTER_X + 5_000);
}

#[test]
fn countdown_digit_rounds_seconds_up() {
    assert_eq!(countdown_digit(180_000), 3);
    assert_eq!(countdown_digit(120_001), 3);
    assert_eq!(countdown_digit(120_000), 2);
    assert_eq!(countdown_digit(60_000), 1);
    assert_eq!(countdown_digit(1), 1);
    assert_eq!(countdown_digit(0), 0);
}

#[test]
fn countdown_freezes_paddles() {
    let mut s = Session::new(cfg());
    let held = TickInput { right_down: true, left_up: true, ..quiet() };
    let ev = s.tick(&held, 1_000);
    assert!(!ev.leave_gameplay);
    assert_eq!(s.left_paddle.y, CENTER_Y);
    assert_eq!(s.right_paddle.y, CENTER_Y);
}

#[test]
fn boundary_exit_awards_the_opposite_side() {
    // Ball about to leave through the right edge.
    let ball = Ball { x: 799_000, y: 100_000, vx: 600_000, vy: 0 };
    let mut s = mid_round(ball, Score { left: 2, right: 1 });
    let ev = s.tick(&quiet(), 1_000);
    // Exactly the left side's score rises, by exactly one.
    assert_eq!(ev.round_win, Some(Side::Left));
    assert_eq!(s.score.left, 3);
    assert_eq!(s.score.right, 1);
    // The round reset: ball at the field center, level, serving
    // toward the side it left through; paddles back at the vertical
    // center; countdown re-armed.
    assert_eq!(s.ball.x, CENTER_X);
    assert_eq!(s.ball.y, CENTER_Y);
    assert_eq!(s.ball.vx, -300_000);
    assert_eq!(s.ball.vy, 0);
    assert_eq!(s.left_paddle.y, CENTER_Y);
    assert_eq!(s.right_paddle.y, CENTER_Y);
    assert_eq!(s.phase, MatchPhase::Counting { remaining: COUNTDOWN_TIME });
}

#[test]
fn boundary_exit_left_awards_right() {
    let ball = Ball { x: 1_000, y: 100_000, vx: -600_000, vy: 0 };
    let mut s = mid_round(ball, Score { left: 0, right: 0 });
    let ev = s.tick(&quiet(), 1_000);
    assert_eq!(ev.round_win, Some(Side::Right));
    assert_eq!(s.score.left, 0);
    assert_eq!(s.score.right, 1);
    assert_eq!(s.ball.vx, 300_000);
}

#[test]
fn fifth_point_ends_the_match() {
    // Left stands at 4 against 3 and the ball is leaving through
    // the right edge: the fifth point ends the match with left as
    // the winner instead of re-arming the countdown.
    let ball = Ball { x: 799_000, y: 100_000, vx: 600_000, vy: 0 };
    let mut s = mid_round(ball, Score { left: 4, right: 3 });
    let ev = s.tick(&quiet(), 1_000);
    assert_eq!(ev.round_win, Some(Side::Left));
    assert_eq!(s.score.left, 5);
    assert_eq!(s.score.right, 3);
    assert_eq!(s.phase, MatchPhase::AwaitingDecision { winner: Side::Left });
    // The ball and paddles were still reset for whatever comes next.
    assert_eq!(s.ball.x, CENTER_X);
}

#[test]
fn rematch_clears_scores_and_rearms_countdown() {
    let ball = Ball { x: CENTER_X, y: CENTER_Y, vx: -300_000, vy: 0 };
    let mut s = mid_round(ball, Score { left: 5, right: 3 });
    s.phase = MatchPhase::AwaitingDecision { winner: Side::Left };
    // Undecided frames change nothing.
    let ev = s.tick(&quiet(), 1_000);
    assert!(!ev.leave_gameplay);
    assert_eq!(s.score.left, 5);
    assert_eq!(s.phase, MatchPhase::AwaitingDecision { winner: Side::Left });
    // The rematch decision clears both scores and re-arms the
    // countdown.
    let rematch = TickInput { rematch: true, ..quiet() };
    s.tick(&rematch, 1_000);
    assert_eq!(s.score.left, 0);
    assert_eq!(s.score.right, 0);
    assert_eq!(s.phase, MatchPhase::Counting { remaining: COUNTDOWN_TIME });
}

#[test]
fn abandon_leaves_gameplay() {
    let ball = Ball { x: CENTER_X, y: CENTER_Y, vx: -300_000, vy: 0 };
    let mut s = mid_round(ball, Score { left: 5, right: 3 });
    s.phase = MatchPhase::AwaitingDecision { winner: Side::Left };
    let abandon = TickInput { abandon: true, ..quiet() };
    let ev = s.tick(&abandon, 1_000);
    assert!(ev.leave_gameplay);
    // The session itself is untouched; the caller drops it.
    assert_eq!(s.phase, MatchPhase::AwaitingDecision { winner: Side::Left });

    // Abandoning also works in the middle of a round.
    let mut active = mid_round(ball, Score { left: 1, right: 1 });
    let ev2 = active.tick(&abandon, 1_000);
    assert!(ev2.leave_gameplay);
}

#[test]
fn paddle_collision_emits_event_and_keeps_ball_in_round() {
    // Ball one frame short of the right paddle, level with it.
    let ball = Ball { x: 740_000, y: CENTER_Y, vx: 300_000, vy: 0 };
    let mut s = mid_round(ball, Score { left: 0, right: 0 });
    let ev = s.tick(&quiet(), 1_000);
    assert_eq!(ev.paddle_collision, Some(Side::Right));
    assert_eq!(ev.round_win, None);
    assert_eq!(s.ball.x, 730_000);
    assert_eq!(s.ball.vx, -305_000);
    assert_eq!(s.phase, MatchPhase::Active);
}

#[test]
fn border_collision_emits_event_during_play() {
    let ball = Ball { x: CENTER_X, y: 435_000, vx: 300_000, vy: 600_000 };
    let mut s = mid_round(ball, Score { left: 0, right: 0 });
    let ev = s.tick(&quiet(), 1_000);
    assert!(ev.border_collision);
    assert_eq!(s.ball.vy, -600_000);
}
