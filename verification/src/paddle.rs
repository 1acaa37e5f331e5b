//! A paddle: fixed horizontal center per side, a vertical center the
//! player moves, and a guard that skips any move whose result would
//! leave the playfield.

use vstd::prelude::*;
use crate::config::{CENTER_Y, FIELD_HEIGHT, GameConfig, MAX_DT, PADDLE_SPEED, Side};
use crate::motion::{displacement, spec_displacement};

verus! {

/// One of the two paddles.
#[derive(Clone, Copy, PartialEq, Eq, Structural, Debug)]
pub struct Paddle {
    /// The side whose player owns this paddle; fixes its horizontal
    /// center.
    pub side: Side,
    /// Vertical center, in milliunits.
    pub y: i64,
}

/// The vertical center a paddle may move to: its near edges stay on
/// the field, so the center keeps half a paddle's height away from
/// either border.
pub open spec fn paddle_in_bounds(y: int, cfg: GameConfig) -> bool {
    cfg.paddle_half_h <= y <= FIELD_HEIGHT - cfg.paddle_half_h
}

/// The vertical center after one frame of input: first the up move,
/// then the down move, each skipped entirely when its result would
/// leave the field.  `d` is the distance one frame covers.
pub open spec fn spec_steered_y(y: int, up: bool, down: bool, d: int, cfg: GameConfig) -> int {
    let y_up = if up && y - d >= cfg.paddle_half_h {
        y - d
    } else {
        y
    };
    if down && y_up + d <= FIELD_HEIGHT - cfg.paddle_half_h {
        y_up + d
    } else {
        y_up
    }
}

impl Paddle {
    /// The paddle keeps its center on the field.
    pub open spec fn wf(self, cfg: GameConfig) -> bool {
        paddle_in_bounds(self.y as int, cfg)
    }

    /// The paddle after one frame of input (what `steer` leaves
    /// behind).
    pub open spec fn spec_steered(self, up: bool, down: bool, dt: int, cfg: GameConfig) -> Paddle {
        Paddle {
            side: self.side,
            y: spec_steered_y(
                self.y as int,
                up,
                down,
                spec_displacement(PADDLE_SPEED as int, dt),
                cfg,
            ) as i64,
        }
    }

    /// A paddle at the field's vertical center.
    pub fn new(side: Side, cfg: &GameConfig) -> (r: Paddle)
        requires
            cfg.wf(),
        ensures
            r.wf(*cfg),
            r.side == side,
            r.y == CENTER_Y,
    {
        Paddle { side, y: CENTER_Y }
    }

    /// Returns the paddle to the field's vertical center for a new
    /// round.
    pub fn reset(&mut self, cfg: &GameConfig)
        requires
            cfg.wf(),
        ensures
            final(self).wf(*cfg),
            final(self).side == old(self).side,
            final(self).y == CENTER_Y,
    {
        self.y = CENTER_Y;
    }

    /// Moves the paddle for one frame of directional input.  A move
    /// is applied only when the resulting near edge stays on the
    /// field; otherwise it is skipped, not clamped.  The center
    /// therefore never leaves `[half height, field height - half
    /// height]`.
    pub fn steer(&mut self, up: bool, down: bool, dt: i64, cfg: &GameConfig)
        requires
            old(self).wf(*cfg),
            cfg.wf(),
            0 <= dt <= MAX_DT,
        ensures
            final(self).side == old(self).side,
            *final(self) == old(self).spec_steered(up, down, dt as int, *cfg),
            final(self).wf(*cfg),
    {
        let d: i64 = displacement(PADDLE_SPEED, dt);
        if up && self.y - d >= cfg.paddle_half_h {
            self.y = self.y - d;
        }
        if down && self.y + d <= FIELD_HEIGHT - cfg.paddle_half_h {
            self.y = self.y + d;
        }
    }
}

} // verus!
