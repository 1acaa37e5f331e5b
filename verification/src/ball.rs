//! The ball: position and velocity in milliunits, frame integration,
//! border reflection, and the reset that starts a round.

use vstd::prelude::*;
use crate::config::{
    BALL_MAX_SPEED, BALL_START_SPEED, CENTER_X, CENTER_Y, FIELD_HEIGHT, FIELD_WIDTH, GameConfig,
    MAX_DT, MAX_SPIN, POS_LIMIT,
};
use crate::motion::{MAX_STEP, displacement, saturate, spec_displacement, spec_saturate};

verus! {

/// The ball.
#[derive(Clone, Copy, PartialEq, Eq, Structural, Debug)]
pub struct Ball {
    /// Horizontal center, in milliunits.
    pub x: i64,
    /// Vertical center, in milliunits.
    pub y: i64,
    /// Horizontal velocity, in milliunits per second.
    pub vx: i64,
    /// Vertical velocity, in milliunits per second.
    pub vy: i64,
}

impl Ball {
    /// The velocity a ball can carry: horizontal speed between the
    /// serve speed and the cap, vertical speed within what a paddle
    /// hit can produce.
    pub open spec fn vel_wf(self) -> bool {
        &&& BALL_START_SPEED <= self.vx <= BALL_MAX_SPEED || -BALL_MAX_SPEED <= self.vx
            <= -BALL_START_SPEED
        &&& -MAX_SPIN <= self.vy <= MAX_SPIN
    }

    /// Position bounds that hold between ticks: horizontally on the
    /// field (a ball that leaves it ends the round and is reset
    /// within the same tick), vertically within the saturation
    /// bound.
    pub open spec fn pos_wf(self) -> bool {
        &&& 0 <= self.x <= FIELD_WIDTH
        &&& -POS_LIMIT <= self.y <= POS_LIMIT
    }

    /// A ball a session can hold between ticks.
    pub open spec fn wf(self) -> bool {
        self.vel_wf() && self.pos_wf()
    }

    /// Position bounds that hold in the middle of a tick, after the
    /// move of one frame and before the exit check.
    pub open spec fn mid_tick_pos_wf(self) -> bool {
        &&& -MAX_STEP <= self.x <= FIELD_WIDTH + MAX_STEP
        &&& -POS_LIMIT <= self.y <= POS_LIMIT
    }

    /// The ball a session starts with: field center, moving toward
    /// the right at the serve speed, level.
    pub open spec fn spec_initial() -> Ball {
        Ball { x: CENTER_X, y: CENTER_Y, vx: BALL_START_SPEED, vy: 0 }
    }

    /// The ball that serves the first round: field center, moving
    /// toward the right at the serve speed, level.
    pub fn new() -> (r: Ball)
        ensures
            r == Ball::spec_initial(),
            r.wf(),
            r.x == CENTER_X,
            r.y == CENTER_Y,
            r.vx == BALL_START_SPEED,
            r.vy == 0,
    {
        Ball { x: CENTER_X, y: CENTER_Y, vx: BALL_START_SPEED, vy: 0 }
    }

    /// What the round reset leaves in the ball: field center, level,
    /// serving at the start speed toward the side the ball left
    /// through (against the side that just scored).
    pub open spec fn spec_reset(self) -> Ball {
        Ball {
            x: CENTER_X,
            y: CENTER_Y,
            vx: if self.vx >= 0 {
                (-BALL_START_SPEED) as i64
            } else {
                BALL_START_SPEED
            },
            vy: 0,
        }
    }

    /// Resets the ball for a new round: to the field center, level,
    /// at the serve speed, sent toward the side it last travelled
    /// from.
    pub fn reset_for_round(&mut self)
        requires
            old(self).vel_wf(),
        ensures
            *final(self) == old(self).spec_reset(),
            final(self).wf(),
            final(self).x == CENTER_X,
            final(self).y == CENTER_Y,
            final(self).vy == 0,
    {
        self.x = CENTER_X;
        self.y = CENTER_Y;
        self.vx = if self.vx >= 0 {
            -BALL_START_SPEED
        } else {
            BALL_START_SPEED
        };
        self.vy = 0;
    }

    /// The ball after the move of one frame: each coordinate advanced
    /// by its velocity over the frame time, the vertical coordinate
    /// saturated.
    pub open spec fn spec_moved(self, dt: int) -> Ball {
        Ball {
            x: (self.x + spec_displacement(self.vx as int, dt)) as i64,
            y: spec_saturate(self.y + spec_displacement(self.vy as int, dt)) as i64,
            vx: self.vx,
            vy: self.vy,
        }
    }

    /// Whether the moved ball's top or bottom edge lies on or outside
    /// a horizontal border.
    pub open spec fn spec_on_border(self, cfg: GameConfig) -> bool {
        self.y - cfg.ball_half_h <= 0 || self.y + cfg.ball_half_h >= FIELD_HEIGHT
    }

    /// The ball after the border check: vertical velocity reflected
    /// when an edge lies on or outside a border, untouched otherwise.
    pub open spec fn spec_border_checked(self, cfg: GameConfig) -> Ball {
        if self.spec_on_border(cfg) {
            Ball { x: self.x, y: self.y, vx: self.vx, vy: (-self.vy) as i64 }
        } else {
            self
        }
    }

    /// Advances the ball by one frame and resolves border bounces:
    /// the position moves by velocity times frame time, and when the
    /// moved ball's top or bottom edge lies on or outside a border
    /// the vertical velocity is reflected.  Returns whether it was.
    /// The check reads the moved position only — one reflection per
    /// frame, no sub-stepping, and the position is not pulled back
    /// onto the field.
    pub fn integrate(&mut self, dt: i64, cfg: &GameConfig) -> (bounced: bool)
        requires
            old(self).wf(),
            cfg.wf(),
            0 <= dt <= MAX_DT,
        ensures
            bounced == old(self).spec_moved(dt as int).spec_on_border(*cfg),
            *final(self) == old(self).spec_moved(dt as int).spec_border_checked(*cfg),
            final(self).vel_wf(),
            final(self).mid_tick_pos_wf(),
            final(self).vx == old(self).vx,
    {
        self.x = self.x + displacement(self.vx, dt);
        self.y = saturate(self.y + displacement(self.vy, dt));
        if self.y - cfg.ball_half_h <= 0 || self.y + cfg.ball_half_h >= FIELD_HEIGHT {
            self.vy = -self.vy;
            true
        } else {
            false
        }
    }
}

} // verus!
