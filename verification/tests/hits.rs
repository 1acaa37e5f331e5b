use pong_core::ball::Ball;
use pong_core::collision::resolve;
use pong_core::config::{GameConfig, Side, CENTER_Y, LEFT_PADDLE_X};
use pong_core::paddle::Paddle;

fn cfg() -> GameConfig {
    GameConfig::standard()
}

#[test]
fn right_paddle_hit_reflects_and_speeds_up() {
    // Ball moving right at 300 units/sec, level with the right
    // paddle's center, leading edge inside the paddle band and the
    // ball center still short of the paddle's center line.
    let c = cfg();
    let p = Paddle { side: Side::Right, y: CENTER_Y };
    let mut b = Ball { x: 745_000, y: CENTER_Y, vx: 300_000, vy: 40_000 };
    let hit = resolve(&mut b, &p, &c);
    assert!(hit);
    // Snapped flush: paddle facing edge at 740, ball half-width 10,
    // so the center sits at 730 units.
    assert_eq!(b.x, 730_000);
    // Reflected and sped up by the fixed increment.
    assert_eq!(b.vx, -305_000);
    // The offset from the paddle center was zero, so the old
    // vertical velocity is overwritten with zero.
    assert_eq!(b.vy, 0);
}

#[test]
fn hit_past_center_line_is_not_registered() {
    // Same approach, but the ball's center has already crossed the
    // paddle's center line: the tie-break refuses the hit.
    let c = cfg();
    let p = Paddle { side: Side::Right, y: CENTER_Y };
    let mut b = Ball { x: 770_000, y: CENTER_Y, vx: 300_000, vy: 0 };
    let hit = resolve(&mut b, &p, &c);
    assert!(!hit);
    assert_eq!(b.x, 770_000);
    assert_eq!(b.vx, 300_000);
}

#[test]
fn hit_outside_vertical_span_is_not_registered() {
    let c = cfg();
    let p = Paddle { side: Side::Right, y: CENTER_Y };
    // Ball fully above the paddle: spans do not overlap.
    let mut b = Ball { x: 745_000, y: CENTER_Y - 60_000, vx: 300_000, vy: 0 };
    assert!(!resolve(&mut b, &p, &c));
}

#[test]
fn left_paddle_hit_mirrors_right() {
    let c = cfg();
    let p = Paddle { side: Side::Left, y: CENTER_Y };
    let mut b = Ball { x: 55_000, y: CENTER_Y, vx: -300_000, vy: -75_000 };
    let hit = resolve(&mut b, &p, &c);
    assert!(hit);
    assert_eq!(b.x, LEFT_PADDLE_X + 20_000);
    assert_eq!(b.vx, 305_000);
    assert_eq!(b.vy, 0);
}

#[test]
fn spin_is_proportional_to_offset() {
    let c = cfg();
    let p = Paddle { side: Side::Right, y: CENTER_Y };
    // Ball 20 units below the paddle center.
    let mut b = Ball { x: 745_000, y: CENTER_Y + 20_000, vx: 300_000, vy: -90_000 };
    assert!(resolve(&mut b, &p, &c));
    assert_eq!(b.vy, 100_000);
}

#[test]
fn speed_gain_is_clamped_at_cap() {
    let c = cfg();
    let p = Paddle { side: Side::Right, y: CENTER_Y };
    let mut b = Ball { x: 745_000, y: CENTER_Y, vx: 598_000, vy: 0 };
    assert!(resolve(&mut b, &p, &c));
    // 598 + 5 would pass 600, so the speed is clamped at the cap.
    assert_eq!(b.vx, -600_000);

    let mut at_cap = Ball { x: 745_000, y: CENTER_Y, vx: 600_000, vy: 0 };
    assert!(resolve(&mut at_cap, &p, &c));
    assert_eq!(at_cap.vx, -600_000);
}

#[test]
fn successive_hits_never_slow_the_ball() {
    let c = cfg();
    let right = Paddle { side: Side::Right, y: CENTER_Y };
    let left = Paddle { side: Side::Left, y: CENTER_Y };
    let mut speed: i64 = 300_000;
    let mut b = Ball { x: 745_000, y: CENTER_Y, vx: speed, vy: 0 };
    for round in 0..70 {
        let (paddle, x) = if round % 2 == 0 {
            (&right, 745_000)
        } else {
            (&left, 55_000)
        };
        b.x = x;
        assert!(resolve(&mut b, paddle, &c));
        assert!(b.vx.abs() >= speed);
        assert!(b.vx.abs() <= 600_000);
        speed = b.vx.abs();
    }
    assert_eq!(speed, 600_000);
}
