//! Fixed-point units, playfield constants, and the per-session
//! configuration (the half-extents of the drawable assets).

use vstd::prelude::*;

verus! {

/// Milliunits per world unit: every length in this crate is an `i64`
/// count of thousandths of a world unit.
pub const SCALE: i64 = 1_000;

/// Time units per second; one 60 Hz frame is exactly 1000 time units.
pub const TIME_SCALE: i64 = 60_000;

/// Playfield width (800 world units), in milliunits.
pub const FIELD_WIDTH: i64 = 800_000;

/// Playfield height (450 world units), in milliunits.
pub const FIELD_HEIGHT: i64 = 450_000;

/// Horizontal center of the playfield.
pub const CENTER_X: i64 = 400_000;

/// Vertical center of the playfield.
pub const CENTER_Y: i64 = 225_000;

/// Vertical paddle speed (500 units/sec), in milliunits per second.
pub const PADDLE_SPEED: i64 = 500_000;

/// Horizontal ball speed at the start of a round (300 units/sec).
pub const BALL_START_SPEED: i64 = 300_000;

/// Cap on the horizontal ball speed (600 units/sec).
pub const BALL_MAX_SPEED: i64 = 600_000;

/// Gain of horizontal speed on each paddle hit (5 units/sec).
pub const HIT_SPEEDUP: i64 = 5_000;

/// Vertical speed after a paddle hit is the ball's offset from the
/// paddle center times this factor, per second.
pub const SPIN_FACTOR: i64 = 5;

/// Largest vertical ball speed a paddle hit can produce: the offset at
/// a hit is below `FIELD_HEIGHT`, so the spin stays below its product
/// with `SPIN_FACTOR`.
pub const MAX_SPIN: i64 = 2_250_000;

/// Pre-round countdown (3 seconds), in time units.
pub const COUNTDOWN_TIME: i64 = 180_000;

/// Points that end the match.
pub const WIN_SCORE: u32 = 5;

/// Fixed horizontal center of the left paddle (50 world units).
pub const LEFT_PADDLE_X: i64 = 50_000;

/// Fixed horizontal center of the right paddle.
pub const RIGHT_PADDLE_X: i64 = FIELD_WIDTH - LEFT_PADDLE_X;

/// Largest frame time a tick accepts: 10 seconds, in time units.
/// Machine limit only; it keeps every product in range of `i64`.
pub const MAX_DT: i64 = 600_000;

/// Saturation bound for the ball's vertical position.  An oversized
/// frame time can carry the ball far outside the field before the
/// border reflection turns it around; positions saturate here so that
/// the arithmetic stays total.  At field scale it is unreachable.
pub const POS_LIMIT: i64 = 1_000_000_000_000;

/// The two sides of the field.
#[derive(Clone, Copy, PartialEq, Eq, Structural, Debug)]
pub enum Side {
    Left,
    Right,
}

impl Side {
    /// The side facing this one.
    pub fn opposite(self) -> (r: Side)
        ensures
            r == self.spec_opposite(),
    {
        match self {
            Side::Left => Side::Right,
            Side::Right => Side::Left,
        }
    }

    /// What `opposite` returns.
    pub open spec fn spec_opposite(self) -> Side {
        match self {
            Side::Left => Side::Right,
            Side::Right => Side::Left,
        }
    }

    /// Fixed horizontal center of this side's paddle.
    pub fn paddle_x(self) -> (r: i64)
        ensures
            r == self.spec_paddle_x(),
    {
        match self {
            Side::Left => LEFT_PADDLE_X,
            Side::Right => RIGHT_PADDLE_X,
        }
    }

    /// What `paddle_x` returns.
    pub open spec fn spec_paddle_x(self) -> i64 {
        match self {
            Side::Left => LEFT_PADDLE_X,
            Side::Right => RIGHT_PADDLE_X,
        }
    }
}

/// Half-extents of the drawable assets, in milliunits.  The session
/// treats them as given, read-only dimensions.
#[derive(Clone, Copy, PartialEq, Eq, Structural, Debug)]
pub struct GameConfig {
    /// Half the ball's width.
    pub ball_half_w: i64,
    /// Half the ball's height.
    pub ball_half_h: i64,
    /// Half a paddle's width.
    pub paddle_half_w: i64,
    /// Half a paddle's height.
    pub paddle_half_h: i64,
}

impl GameConfig {
    /// The dimensions a session can be played with: everything
    /// positive, a paddle no taller than the field, ball and paddle
    /// together no taller than the field, and ball plus paddle no
    /// wider than a paddle's distance from its own edge of the field,
    /// so the repositioning on a hit stays inside the field.
    pub open spec fn wf(self) -> bool {
        &&& 0 < self.ball_half_w
        &&& 0 < self.ball_half_h
        &&& 0 < self.paddle_half_w
        &&& 0 < self.paddle_half_h
        &&& 2 * self.paddle_half_h <= FIELD_HEIGHT
        &&& self.ball_half_h + self.paddle_half_h <= FIELD_HEIGHT
        &&& self.paddle_half_w + self.ball_half_w <= LEFT_PADDLE_X
    }

    /// Configuration with the stock asset dimensions: a 20 x 20 ball
    /// and 20 x 80 paddles.
    pub fn standard() -> (r: GameConfig)
        ensures
            r.wf(),
            r.ball_half_w == 10_000,
            r.ball_half_h == 10_000,
            r.paddle_half_w == 10_000,
            r.paddle_half_h == 40_000,
    {
        GameConfig { ball_half_w: 10_000, ball_half_h: 10_000, paddle_half_w: 10_000, paddle_half_h: 40_000 }
    }

    /// Whether the dimensions admit a session (the executable mirror
    /// of `wf`, for callers that receive dimensions from outside).
    pub fn is_valid(&self) -> (r: bool)
        ensures
            r == self.wf(),
    {
        0 < self.ball_half_w && self.ball_half_w <= LEFT_PADDLE_X
            && 0 < self.ball_half_h && self.ball_half_h <= FIELD_HEIGHT
            && 0 < self.paddle_half_w && self.paddle_half_w <= LEFT_PADDLE_X
            && 0 < self.paddle_half_h && self.paddle_half_h <= 225_000
            && self.ball_half_h + self.paddle_half_h <= FIELD_HEIGHT
            && self.paddle_half_w + self.ball_half_w <= LEFT_PADDLE_X
    }
}

} // verus!
