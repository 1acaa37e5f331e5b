use pong_core::ball::Ball;
use pong_core::config::{GameConfig, Side, CENTER_X, CENTER_Y, FIELD_HEIGHT, POS_LIMIT};
use pong_core::motion::{displacement, saturate};
use pong_core::paddle::Paddle;

fn cfg() -> GameConfig {
    GameConfig::standard()
}

#[test]
fn displacement_is_velocity_times_time() {
    // 300 units/sec over one 60 Hz frame covers exactly 5 units.
    assert_eq!(displacement(300_000, 1_000), 5_000);
    // 500 units/sec over one frame truncates toward zero.
    assert_eq!(displacement(500_000, 1_000), 8_333);
    assert_eq!(displacement(-500_000, 1_000), -8_333);
    assert_eq!(displacement(0, 1_000), 0);
}

#[test]
fn paddle_moves_by_speed_times_time() {
    let c = cfg();
    let mut p = Paddle::new(Side::Left, &c);
    p.steer(true, false, 1_000, &c);
    assert_eq!(p.y, CENTER_Y - 8_333);
    p.steer(false, true, 1_000, &c);
    assert_eq!(p.y, CENTER_Y);
}

#[test]
fn paddle_center_stays_within_field_band() {
    let c = cfg();
    let mut p = Paddle::new(Side::Right, &c);
    // Hold the down binding far longer than the field is tall.
    for _ in 0..600 {
        p.steer(false, true, 10_000, &c);
        assert!(c.paddle_half_h <= p.y && p.y <= FIELD_HEIGHT - c.paddle_half_h);
    }
    // And back up just as long.
    for _ in 0..600 {
        p.steer(true, false, 10_000, &c);
        assert!(c.paddle_half_h <= p.y && p.y <= FIELD_HEIGHT - c.paddle_half_h);
    }
}

#[test]
fn paddle_skips_move_that_would_leave_field() {
    let c = cfg();
    let mut p = Paddle { side: Side::Left, y: c.paddle_half_h + 1_000 };
    // One frame at 500 units/sec covers 8333 milliunits, more than
    // the 1000 of headroom: the move is skipped entirely, not
    // clamped.
    p.steer(true, false, 1_000, &c);
    assert_eq!(p.y, c.paddle_half_h + 1_000);
}

#[test]
fn ball_integration_advances_position() {
    let c = cfg();
    let mut b = Ball { x: CENTER_X, y: CENTER_Y, vx: 300_000, vy: -60_000 };
    let bounced = b.integrate(1_000, &c);
    assert!(!bounced);
    assert_eq!(b.x, CENTER_X + 5_000);
    assert_eq!(b.y, CENTER_Y - 1_000);
    assert_eq!(b.vx, 300_000);
    assert_eq!(b.vy, -60_000);
}

#[test]
fn border_reflects_vertical_velocity() {
    let c = cfg();
    let mut b = Ball { x: CENTER_X, y: 430_000, vx: 300_000, vy: 600_000 };
    let bounced = b.integrate(1_000, &c);
    // The ball moved to y = 440000; with a half-height of 10000 its
    // bottom edge sits on the border.
    assert!(bounced);
    assert_eq!(b.y, 440_000);
    assert_eq!(b.vy, -600_000);
}

#[test]
fn ball_reset_serves_against_scorer() {
    let mut b = Ball { x: 810_000, y: 100_000, vx: 420_000, vy: 95_000 };
    b.reset_for_round();
    assert_eq!(b.x, CENTER_X);
    assert_eq!(b.y, CENTER_Y);
    assert_eq!(b.vx, -300_000);
    assert_eq!(b.vy, 0);

    let mut b2 = Ball { x: -5_000, y: 100_000, vx: -420_000, vy: 95_000 };
    b2.reset_for_round();
    assert_eq!(b2.vx, 300_000);
    assert_eq!(b2.vy, 0);
}

#[test]
fn vertical_positions_saturate_at_the_limit() {
    assert_eq!(saturate(POS_LIMIT + 1), POS_LIMIT);
    assert_eq!(saturate(-POS_LIMIT - 1), -POS_LIMIT);
    assert_eq!(saturate(123), 123);
}

#[test]
fn config_validity_matches_bounds() {
    assert!(cfg().is_valid());
    let no_ball = GameConfig { ball_half_w: 0, ..cfg() };
    assert!(!no_ball.is_valid());
    let tall = GameConfig { paddle_half_h: 226_000, ..cfg() };
    assert!(!tall.is_valid());
    let wide = GameConfig { paddle_half_w: 45_000, ..cfg() };
    assert!(!wide.is_valid());
}
