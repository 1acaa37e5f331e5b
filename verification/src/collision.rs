//! Ball/paddle collision: the four-part hit test, the repositioning
//! that sets the ball flush against the paddle, and the reshaped
//! velocity.

use vstd::prelude::*;
use crate::ball::Ball;
use crate::config::{BALL_MAX_SPEED, GameConfig, HIT_SPEEDUP, SPIN_FACTOR, Side};
use crate::paddle::Paddle;

verus! {

/// Whether the ball registers a hit against this paddle.  All four
/// must hold at once:
/// the leading edge (the ball edge facing the paddle) has crossed the
/// paddle's facing edge; it has not yet crossed the paddle's far
/// edge; the vertical spans overlap; and the ball's center has not
/// yet crossed the paddle's center line.  The last is the tie-break
/// that keeps one crossing from registering on consecutive frames.
pub open spec fn spec_hit(b: Ball, p: Paddle, cfg: GameConfig) -> bool {
    let px = p.side.spec_paddle_x();
    let vertical_overlap = b.y - cfg.ball_half_h < p.y + cfg.paddle_half_h && b.y + cfg.ball_half_h
        > p.y - cfg.paddle_half_h;
    match p.side {
        Side::Right => {
            let lead = b.x + cfg.ball_half_w;
            &&& lead > px - cfg.paddle_half_w
            &&& lead <= px + cfg.paddle_half_w
            &&& vertical_overlap
            &&& b.x < px
        },
        Side::Left => {
            let lead = b.x - cfg.ball_half_w;
            &&& lead < px + cfg.paddle_half_w
            &&& lead >= px - cfg.paddle_half_w
            &&& vertical_overlap
            &&& b.x > px
        },
    }
}

/// The horizontal speed after a hit: raised by the fixed increment,
/// clamped to the cap.
pub open spec fn spec_speed_after_hit(speed: int) -> int {
    if speed + HIT_SPEEDUP <= BALL_MAX_SPEED {
        speed + HIT_SPEEDUP
    } else {
        BALL_MAX_SPEED as int
    }
}

/// The ball a registered hit leaves behind: repositioned so its
/// facing edge sits flush against the paddle's facing edge, the
/// horizontal velocity negated and its magnitude raised toward the
/// cap, and the vertical velocity overwritten with the spin the
/// offset from the paddle center gives.
pub open spec fn spec_after_hit(b: Ball, p: Paddle, cfg: GameConfig) -> Ball {
    let px = p.side.spec_paddle_x();
    let snapped_x = match p.side {
        Side::Right => px - cfg.paddle_half_w - cfg.ball_half_w,
        Side::Left => px + cfg.paddle_half_w + cfg.ball_half_w,
    };
    let speed = if b.vx >= 0 {
        b.vx as int
    } else {
        -(b.vx as int)
    };
    let new_vx = if b.vx >= 0 {
        -spec_speed_after_hit(speed)
    } else {
        spec_speed_after_hit(speed)
    };
    Ball {
        x: snapped_x as i64,
        y: b.y,
        vx: new_vx as i64,
        vy: ((b.y - p.y) * SPIN_FACTOR) as i64,
    }
}

/// The ball after one paddle's resolver ran: reshaped by
/// `spec_after_hit` when a hit registers, untouched otherwise.
pub open spec fn spec_resolved(b: Ball, p: Paddle, cfg: GameConfig) -> Ball {
    if spec_hit(b, p, cfg) {
        spec_after_hit(b, p, cfg)
    } else {
        b
    }
}

/// Across a resolver pass the ball's horizontal speed never drops
/// and never passes the cap: a registered hit raises it by the fixed
/// increment or clamps it at the cap, and a miss leaves it alone.
/// The pass also keeps the ball well-formed, and a hit leaves it on
/// the field horizontally.
pub proof fn lemma_resolver_speed_monotone(b: Ball, p: Paddle, cfg: GameConfig)
    requires
        b.vel_wf(),
        b.mid_tick_pos_wf(),
        p.wf(cfg),
        cfg.wf(),
    ensures
        vstd::math::abs(spec_resolved(b, p, cfg).vx as int) >= vstd::math::abs(b.vx as int),
        vstd::math::abs(spec_resolved(b, p, cfg).vx as int) <= BALL_MAX_SPEED,
        spec_resolved(b, p, cfg).vel_wf(),
        spec_resolved(b, p, cfg).mid_tick_pos_wf(),
        spec_resolved(b, p, cfg).y == b.y,
        spec_hit(b, p, cfg) ==> 0 <= spec_resolved(b, p, cfg).x <= crate::config::FIELD_WIDTH,
        !spec_hit(b, p, cfg) ==> spec_resolved(b, p, cfg) == b,
{
}

/// At most one paddle can register a hit in one frame: once the
/// right paddle's resolver has run, the ball sits too far right for
/// the left paddle's test — both are evaluated, but only one side of
/// the field can satisfy all four conditions.
pub proof fn lemma_at_most_one_hit(b: Ball, lp: Paddle, rp: Paddle, cfg: GameConfig)
    requires
        cfg.wf(),
        lp.side == Side::Left,
        rp.side == Side::Right,
    ensures
        spec_hit(b, rp, cfg) ==> !spec_hit(spec_resolved(b, rp, cfg), lp, cfg),
{
}

/// Applies one paddle's resolver to the ball and reports whether a
/// hit registered.  On a hit the ball is snapped flush against the
/// paddle's facing edge, its horizontal velocity is negated and sped
/// up toward the cap, and its vertical velocity is overwritten in
/// proportion to the offset from the paddle center; otherwise the
/// ball is untouched.  The horizontal speed never drops and never
/// passes the cap.
pub fn resolve(b: &mut Ball, p: &Paddle, cfg: &GameConfig) -> (hit: bool)
    requires
        old(b).vel_wf(),
        old(b).mid_tick_pos_wf(),
        p.wf(*cfg),
        cfg.wf(),
    ensures
        hit == spec_hit(*old(b), *p, *cfg),
        *final(b) == spec_resolved(*old(b), *p, *cfg),
        final(b).vel_wf(),
        final(b).mid_tick_pos_wf(),
        hit ==> 0 <= final(b).x <= crate::config::FIELD_WIDTH,
        hit ==> final(b).y == old(b).y,
        (if final(b).vx >= 0 {
            final(b).vx as int
        } else {
            -(final(b).vx as int)
        }) >= (if old(b).vx >= 0 {
            old(b).vx as int
        } else {
            -(old(b).vx as int)
        }),
{
    let px: i64 = p.side.paddle_x();
    let vertical_overlap: bool = b.y - cfg.ball_half_h < p.y + cfg.paddle_half_h
        && b.y + cfg.ball_half_h > p.y - cfg.paddle_half_h;
    let hit: bool = match p.side {
        Side::Right => {
            let lead: i64 = b.x + cfg.ball_half_w;
            lead > px - cfg.paddle_half_w && lead <= px + cfg.paddle_half_w && vertical_overlap
                && b.x < px
        },
        Side::Left => {
            let lead: i64 = b.x - cfg.ball_half_w;
            lead < px + cfg.paddle_half_w && lead >= px - cfg.paddle_half_w && vertical_overlap
                && b.x > px
        },
    };
    if hit {
        b.x = match p.side {
            Side::Right => px - cfg.paddle_half_w - cfg.ball_half_w,
            Side::Left => px + cfg.paddle_half_w + cfg.ball_half_w,
        };
        let speed: i64 = if b.vx >= 0 {
            b.vx
        } else {
            -b.vx
        };
        let new_speed: i64 = if speed + HIT_SPEEDUP <= BALL_MAX_SPEED {
            speed + HIT_SPEEDUP
        } else {
            BALL_MAX_SPEED
        };
        let outgoing: i64 = if b.vx >= 0 {
            -new_speed
        } else {
            new_speed
        };
        b.vx = outgoing;
        b.vy = (b.y - p.y) * SPIN_FACTOR;
        true
    } else {
        false
    }
}

} // verus!
