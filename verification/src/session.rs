//! One gameplay session: the ball, the two paddles, the score and
//! the round/match phase, advanced one frame at a time by `tick`.

use vstd::prelude::*;
use crate::ball::Ball;
use crate::collision::{resolve, spec_hit, spec_resolved};
use crate::config::{
    CENTER_Y, COUNTDOWN_TIME, FIELD_WIDTH, GameConfig, MAX_DT, Side, TIME_SCALE, WIN_SCORE,
};
use crate::paddle::Paddle;
use crate::score::Score;

verus! {

/// Where the session stands within the match.
#[derive(Clone, Copy, PartialEq, Eq, Structural, Debug)]
pub enum MatchPhase {
    /// The pre-round countdown still runs; paddles and ball are
    /// frozen until it expires.
    Counting {
        /// Time units left before play is enabled.
        remaining: i64,
    },
    /// A round is being played.
    Active,
    /// A side has reached the winning score; the session waits for a
    /// rematch or abandon decision.
    AwaitingDecision {
        /// The side that won the match.
        winner: Side,
    },
}

/// The discrete input signals one frame delivers.
#[derive(Clone, Copy, PartialEq, Eq, Structural, Debug, Default)]
pub struct TickInput {
    /// The left player holds the up binding.
    pub left_up: bool,
    /// The left player holds the down binding.
    pub left_down: bool,
    /// The right player holds the up binding.
    pub right_up: bool,
    /// The right player holds the down binding.
    pub right_down: bool,
    /// The rematch decision (honoured while awaiting one).
    pub rematch: bool,
    /// The abandon signal: leave gameplay for the main menu.
    pub abandon: bool,
}

/// The event notifications one tick emits, for the audio collaborator
/// and the outer loop.
#[derive(Clone, Copy, PartialEq, Eq, Debug)]
pub struct TickEvents {
    /// The ball bounced off a horizontal border.
    pub border_collision: bool,
    /// The ball bounced off this side's paddle.
    pub paddle_collision: Option<Side>,
    /// A round ended; this side was awarded the point.
    pub round_win: Option<Side>,
    /// The countdown expired this frame.
    pub countdown_end: bool,
    /// The player asked to leave gameplay; the caller returns to the
    /// main menu and drops the session.
    pub leave_gameplay: bool,
}

/// A tick that emitted nothing.
pub open spec fn spec_quiet_events() -> TickEvents {
    TickEvents {
        border_collision: false,
        paddle_collision: None,
        round_win: None,
        countdown_end: false,
        leave_gameplay: false,
    }
}

/// One gameplay session.
#[derive(Clone, Copy, PartialEq, Eq, Structural, Debug)]
pub struct Session {
    /// The asset dimensions the session was started with.
    pub cfg: GameConfig,
    /// The ball.
    pub ball: Ball,
    /// The left paddle.
    pub left_paddle: Paddle,
    /// The right paddle.
    pub right_paddle: Paddle,
    /// The score.
    pub score: Score,
    /// Where the session stands within the match.
    pub phase: MatchPhase,
}

/// The side awarded the point when the ball sits outside the field
/// horizontally: the ball exits through one side and the opposite
/// side scores.
pub open spec fn spec_award_side(b: Ball) -> Option<Side> {
    if b.x < 0 {
        Some(Side::Right)
    } else if b.x > FIELD_WIDTH {
        Some(Side::Left)
    } else {
        None
    }
}

impl Session {
    /// What a session may hold between ticks: valid dimensions, ball
    /// and paddles well-formed and on their sides, the score within
    /// the threshold, and the phase consistent with the score — the
    /// winning score is held exactly when the session awaits a
    /// decision, and then by the recorded winner.
    pub open spec fn wf(self) -> bool {
        &&& self.cfg.wf()
        &&& self.ball.wf()
        &&& self.left_paddle.side == Side::Left
        &&& self.left_paddle.wf(self.cfg)
        &&& self.right_paddle.side == Side::Right
        &&& self.right_paddle.wf(self.cfg)
        &&& self.score.wf()
        &&& match self.phase {
            MatchPhase::Counting { remaining } => {
                &&& 0 <= remaining <= COUNTDOWN_TIME
                &&& self.score.left < WIN_SCORE
                &&& self.score.right < WIN_SCORE
            },
            MatchPhase::Active => self.score.left < WIN_SCORE && self.score.right < WIN_SCORE,
            MatchPhase::AwaitingDecision { winner } => {
                &&& self.score.spec_of(winner) == WIN_SCORE
                &&& self.score.spec_of(winner.spec_opposite()) < WIN_SCORE
            },
        }
    }

    /// A fresh session: ball serving from the center toward the
    /// right, paddles centered, no points, countdown armed.
    pub fn new(cfg: GameConfig) -> (r: Session)
        requires
            cfg.wf(),
        ensures
            r.wf(),
            r.cfg == cfg,
            r.ball == Ball::spec_initial(),
            r.left_paddle.y == CENTER_Y,
            r.right_paddle.y == CENTER_Y,
            r.score.left == 0,
            r.score.right == 0,
            r.phase == (MatchPhase::Counting { remaining: COUNTDOWN_TIME }),
    {
        Session {
            cfg,
            ball: Ball::new(),
            left_paddle: Paddle::new(Side::Left, &cfg),
            right_paddle: Paddle::new(Side::Right, &cfg),
            score: Score::new(),
            phase: MatchPhase::Counting { remaining: COUNTDOWN_TIME },
        }
    }

    /// The session after a rematch decision: scores cleared and the
    /// countdown re-armed; ball and paddles keep the reset the last
    /// round end gave them.
    pub open spec fn spec_rematch(self) -> Session {
        Session {
            score: Score { left: 0, right: 0 },
            phase: MatchPhase::Counting { remaining: COUNTDOWN_TIME },
            ..self
        }
    }

    /// The session and events one played frame produces, once input
    /// is allowed through: paddles steered, ball advanced and
    /// reflected off borders, both resolvers applied (right first, as
    /// at most one can register), then the exit check — a ball
    /// outside the field awards the point, resets ball and paddles,
    /// and either re-arms the countdown or ends the match.
    pub open spec fn spec_play(self, input: TickInput, dt: int, countdown_end: bool) -> (
        Session,
        TickEvents,
    ) {
        let lp = self.left_paddle.spec_steered(input.left_up, input.left_down, dt, self.cfg);
        let rp = self.right_paddle.spec_steered(input.right_up, input.right_down, dt, self.cfg);
        let moved = self.ball.spec_moved(dt);
        let border = moved.spec_on_border(self.cfg);
        let b1 = moved.spec_border_checked(self.cfg);
        let hit_right = spec_hit(b1, rp, self.cfg);
        let b2 = spec_resolved(b1, rp, self.cfg);
        let hit_left = spec_hit(b2, lp, self.cfg);
        let b3 = spec_resolved(b2, lp, self.cfg);
        let paddle_ev = if hit_right {
            Some(Side::Right)
        } else if hit_left {
            Some(Side::Left)
        } else {
            None
        };
        match spec_award_side(b3) {
            Some(side) => {
                let sc = self.score.spec_award(side);
                let phase = if sc.spec_match_over() {
                    MatchPhase::AwaitingDecision { winner: side }
                } else {
                    MatchPhase::Counting { remaining: COUNTDOWN_TIME }
                };
                (
                    Session {
                        cfg: self.cfg,
                        ball: b3.spec_reset(),
                        left_paddle: Paddle { side: Side::Left, y: CENTER_Y },
                        right_paddle: Paddle { side: Side::Right, y: CENTER_Y },
                        score: sc,
                        phase,
                    },
                    TickEvents {
                        border_collision: border,
                        paddle_collision: paddle_ev,
                        round_win: Some(side),
                        countdown_end,
                        leave_gameplay: false,
                    },
                )
            },
            None => (
                Session {
                    cfg: self.cfg,
                    ball: b3,
                    left_paddle: lp,
                    right_paddle: rp,
                    score: self.score,
                    phase: MatchPhase::Active,
                },
                TickEvents {
                    border_collision: border,
                    paddle_collision: paddle_ev,
                    round_win: None,
                    countdown_end,
                    leave_gameplay: false,
                },
            ),
        }
    }

    /// The session and events one tick produces.  An abandon signal
    /// leaves the state untouched and asks the caller to return to
    /// the menu.  While awaiting a decision only a rematch is
    /// honoured.  While counting, the countdown absorbs the frame
    /// time; the frame it crosses zero on enables play and runs in
    /// full.  Otherwise the frame is played.
    pub open spec fn spec_tick(self, input: TickInput, dt: int) -> (Session, TickEvents) {
        if input.abandon {
            (self, TickEvents { leave_gameplay: true, ..spec_quiet_events() })
        } else {
            match self.phase {
                MatchPhase::AwaitingDecision { .. } => {
                    if input.rematch {
                        (self.spec_rematch(), spec_quiet_events())
                    } else {
                        (self, spec_quiet_events())
                    }
                },
                MatchPhase::Counting { remaining } => {
                    if remaining - dt >= 0 {
                        (
                            Session {
                                phase: MatchPhase::Counting { remaining: (remaining - dt) as i64 },
                                ..self
                            },
                            spec_quiet_events(),
                        )
                    } else {
                        Session { phase: MatchPhase::Active, ..self }.spec_play(input, dt, true)
                    }
                },
                MatchPhase::Active => self.spec_play(input, dt, false),
            }
        }
    }

    /// The session after `n` frames of identical input and frame
    /// time.
    pub open spec fn spec_ticks(self, input: TickInput, dt: int, n: nat) -> Session
        decreases n,
    {
        if n == 0 {
            self
        } else {
            self.spec_ticks(input, dt, (n - 1) as nat).spec_tick(input, dt).0
        }
    }

    /// Plays one frame: paddles, ball, collisions, then the exit
    /// check with its scoring and resets.
    fn play_step(&mut self, input: &TickInput, dt: i64, countdown_end: bool) -> (ev: TickEvents)
        requires
            old(self).wf(),
            old(self).phase == MatchPhase::Active,
            0 <= dt <= MAX_DT,
        ensures
            *final(self) == old(self).spec_play(*input, dt as int, countdown_end).0,
            ev == old(self).spec_play(*input, dt as int, countdown_end).1,
            final(self).wf(),
    {
        let cfg = self.cfg;
        self.left_paddle.steer(input.left_up, input.left_down, dt, &cfg);
        self.right_paddle.steer(input.right_up, input.right_down, dt, &cfg);
        let border: bool = self.ball.integrate(dt, &cfg);
        let hit_right: bool = resolve(&mut self.ball, &self.right_paddle, &cfg);
        let hit_left: bool = resolve(&mut self.ball, &self.left_paddle, &cfg);
        let paddle_ev: Option<Side> = if hit_right {
            Some(Side::Right)
        } else if hit_left {
            Some(Side::Left)
        } else {
            None
        };
        let award: Option<Side> = if self.ball.x < 0 {
            Some(Side::Right)
        } else if self.ball.x > FIELD_WIDTH {
            Some(Side::Left)
        } else {
            None
        };
        match award {
            Some(side) => {
                self.score.award(side);
                self.ball.reset_for_round();
                self.left_paddle.reset(&cfg);
                self.right_paddle.reset(&cfg);
                self.phase = if self.score.match_over() {
                    MatchPhase::AwaitingDecision { winner: side }
                } else {
                    MatchPhase::Counting { remaining: COUNTDOWN_TIME }
                };
                TickEvents {
                    border_collision: border,
                    paddle_collision: paddle_ev,
                    round_win: Some(side),
                    countdown_end,
                    leave_gameplay: false,
                }
            },
            None => TickEvents {
                border_collision: border,
                paddle_collision: paddle_ev,
                round_win: None,
                countdown_end,
                leave_gameplay: false,
            },
        }
    }

    /// Advances the session by one frame of elapsed time and input,
    /// and returns the events the frame emitted.  The state after
    /// the call is exactly `spec_tick` of the state before it; the
    /// session stays well-formed, so the paddles never leave the
    /// field and the ball's horizontal speed never passes the cap.
    pub fn tick(&mut self, input: &TickInput, dt: i64) -> (ev: TickEvents)
        requires
            old(self).wf(),
            0 <= dt <= MAX_DT,
        ensures
            *final(self) == old(self).spec_tick(*input, dt as int).0,
            ev == old(self).spec_tick(*input, dt as int).1,
            final(self).wf(),
            final(self).cfg == old(self).cfg,
    {
        if input.abandon {
            return TickEvents {
                border_collision: false,
                paddle_collision: None,
                round_win: None,
                countdown_end: false,
                leave_gameplay: true,
            };
        }
        match self.phase {
            MatchPhase::AwaitingDecision { winner: _ } => {
                if input.rematch {
                    self.score.reset();
                    self.phase = MatchPhase::Counting { remaining: COUNTDOWN_TIME };
                }
                TickEvents {
                    border_collision: false,
                    paddle_collision: None,
                    round_win: None,
                    countdown_end: false,
                    leave_gameplay: false,
                }
            },
            MatchPhase::Counting { remaining } => {
                let left_over: i64 = remaining - dt;
                if left_over >= 0 {
                    self.phase = MatchPhase::Counting { remaining: left_over };
                    TickEvents {
                        border_collision: false,
                        paddle_collision: None,
                        round_win: None,
                        countdown_end: false,
                        leave_gameplay: false,
                    }
                } else {
                    self.phase = MatchPhase::Active;
                    self.play_step(input, dt, true)
                }
            },
            MatchPhase::Active => self.play_step(input, dt, false),
        }
    }
}

/// The digit shown while the countdown runs: the remaining time in
/// whole seconds, rounded up.
pub fn countdown_digit(remaining: i64) -> (r: i64)
    requires
        0 <= remaining <= COUNTDOWN_TIME,
    ensures
        r == (remaining + TIME_SCALE - 1) / (TIME_SCALE as int),
        0 <= r <= 3,
{
    (remaining + TIME_SCALE - 1) / TIME_SCALE
}

/// A played frame leaves the session well-formed: paddles on the
/// field, the ball's speed within its bounds, the score within the
/// threshold, and the phase consistent with the score.
pub proof fn lemma_play_preserves_wf(s: Session, input: TickInput, dt: int, countdown_end: bool)
    requires
        s.wf(),
        s.score.left < WIN_SCORE,
        s.score.right < WIN_SCORE,
        0 <= dt <= MAX_DT,
    ensures
        s.spec_play(input, dt, countdown_end).0.wf(),
{
    crate::motion::lemma_displacement_bounds(crate::config::PADDLE_SPEED as int, dt);
    crate::motion::lemma_displacement_bounds(s.ball.vx as int, dt);
    crate::motion::lemma_displacement_bounds(s.ball.vy as int, dt);
    let cfg = s.cfg;
    let lp = s.left_paddle.spec_steered(input.left_up, input.left_down, dt, cfg);
    let rp = s.right_paddle.spec_steered(input.right_up, input.right_down, dt, cfg);
    let moved = s.ball.spec_moved(dt);
    let b1 = moved.spec_border_checked(cfg);
    assert(b1.vel_wf() && b1.mid_tick_pos_wf());
    crate::collision::lemma_resolver_speed_monotone(b1, rp, cfg);
    let b2 = spec_resolved(b1, rp, cfg);
    crate::collision::lemma_resolver_speed_monotone(b2, lp, cfg);
}

/// Within a run, the ball's horizontal speed never drops: a played
/// frame that does not end the round — no side is awarded a point —
/// leaves the magnitude of `vx` at least what it was, and it never
/// passes the cap.  (A round end resets the ball to the serve
/// speed.)
pub proof fn lemma_play_speed_monotone(s: Session, input: TickInput, dt: int, countdown_end: bool)
    requires
        s.wf(),
        0 <= dt <= MAX_DT,
    ensures
        s.spec_play(input, dt, countdown_end).1.round_win is None ==> vstd::math::abs(
            s.spec_play(input, dt, countdown_end).0.ball.vx as int,
        ) >= vstd::math::abs(s.ball.vx as int),
        vstd::math::abs(s.spec_play(input, dt, countdown_end).0.ball.vx as int)
            <= crate::config::BALL_MAX_SPEED,
{
    crate::motion::lemma_displacement_bounds(s.ball.vx as int, dt);
    crate::motion::lemma_displacement_bounds(s.ball.vy as int, dt);
    let cfg = s.cfg;
    let lp = s.left_paddle.spec_steered(input.left_up, input.left_down, dt, cfg);
    let rp = s.right_paddle.spec_steered(input.right_up, input.right_down, dt, cfg);
    let b1 = s.ball.spec_moved(dt).spec_border_checked(cfg);
    crate::collision::lemma_resolver_speed_monotone(b1, rp, cfg);
    crate::collision::lemma_resolver_speed_monotone(spec_resolved(b1, rp, cfg), lp, cfg);
}

/// A tick that ends no round never slows the ball: whatever the
/// branch — a frozen countdown frame, an awaited decision, or a
/// played frame without a boundary exit — the magnitude of `vx`
/// afterward is at least what it was.
pub proof fn lemma_tick_speed_monotone(s: Session, input: TickInput, dt: int)
    requires
        s.wf(),
        0 <= dt <= MAX_DT,
    ensures
        s.spec_tick(input, dt).1.round_win is None ==> vstd::math::abs(
            s.spec_tick(input, dt).0.ball.vx as int,
        ) >= vstd::math::abs(s.ball.vx as int),
        vstd::math::abs(s.spec_tick(input, dt).0.ball.vx as int) <= crate::config::BALL_MAX_SPEED,
{
    lemma_tick_preserves_wf(s, input, dt);
    if !input.abandon {
        match s.phase {
            MatchPhase::Counting { remaining } => {
                if remaining - dt < 0 {
                    lemma_play_speed_monotone(
                        Session { phase: MatchPhase::Active, ..s },
                        input,
                        dt,
                        true,
                    );
                }
            },
            MatchPhase::Active => {
                lemma_play_speed_monotone(s, input, dt, false);
            },
            MatchPhase::AwaitingDecision { .. } => {},
        }
    }
}

/// Whether none of the first `n` frames of a run ended a round.
pub open spec fn spec_no_round_win_through(s: Session, input: TickInput, dt: int, n: nat) -> bool
    decreases n,
{
    n == 0 || (spec_no_round_win_through(s, input, dt, (n - 1) as nat) && s.spec_ticks(
        input,
        dt,
        (n - 1) as nat,
    ).spec_tick(input, dt).1.round_win is None)
}

/// On the same run — as long as no boundary exit ends a round — the
/// ball's horizontal speed is monotonically non-decreasing across
/// any number of frames, paddle hits included, and by
/// well-formedness it never exceeds the cap.
pub proof fn lemma_run_speed_monotone(s: Session, input: TickInput, dt: int, n: nat)
    requires
        s.wf(),
        0 <= dt <= MAX_DT,
        spec_no_round_win_through(s, input, dt, n),
    ensures
        vstd::math::abs(s.spec_ticks(input, dt, n).ball.vx as int) >= vstd::math::abs(
            s.ball.vx as int,
        ),
    decreases n,
{
    if n > 0 {
        lemma_run_speed_monotone(s, input, dt, (n - 1) as nat);
        lemma_ticks_preserve_wf(s, input, dt, (n - 1) as nat);
        lemma_tick_speed_monotone(s.spec_ticks(input, dt, (n - 1) as nat), input, dt);
    }
}

/// Per boundary-exit event exactly one side's score rises, by
/// exactly 1, and the other side's is unchanged; a frame without a
/// round win leaves the score alone.
pub proof fn lemma_round_win_scores_exactly_one(
    s: Session,
    input: TickInput,
    dt: int,
    countdown_end: bool,
)
    requires
        s.wf(),
        s.score.left < WIN_SCORE,
        s.score.right < WIN_SCORE,
        0 <= dt <= MAX_DT,
    ensures
        match s.spec_play(input, dt, countdown_end).1.round_win {
            Some(side) => {
                &&& s.spec_play(input, dt, countdown_end).0.score.spec_of(side) == s.score.spec_of(
                    side,
                ) + 1
                &&& s.spec_play(input, dt, countdown_end).0.score.spec_of(side.spec_opposite())
                    == s.score.spec_of(side.spec_opposite())
            },
            None => s.spec_play(input, dt, countdown_end).0.score == s.score,
        },
{
}

/// A round win resets the round: the ball returns to the field
/// center with no vertical velocity, and both paddle centers return
/// to the field's vertical center.
pub proof fn lemma_round_win_resets_round(
    s: Session,
    input: TickInput,
    dt: int,
    countdown_end: bool,
)
    requires
        s.wf(),
        s.score.left < WIN_SCORE,
        s.score.right < WIN_SCORE,
        0 <= dt <= MAX_DT,
    ensures
        s.spec_play(input, dt, countdown_end).1.round_win is Some ==> {
            let next = s.spec_play(input, dt, countdown_end).0;
            &&& next.ball.x == crate::config::CENTER_X
            &&& next.ball.y == CENTER_Y
            &&& next.ball.vy == 0
            &&& next.left_paddle.y == CENTER_Y
            &&& next.right_paddle.y == CENTER_Y
        },
{
}

/// The match has ended exactly when a side holds the winning score,
/// and then the recorded winner is the side whose score is strictly
/// higher.
pub proof fn lemma_match_ends_iff_threshold(s: Session)
    requires
        s.wf(),
    ensures
        (s.phase is AwaitingDecision) <==> s.score.spec_match_over(),
        s.phase matches MatchPhase::AwaitingDecision { winner } ==> winner
            == s.score.spec_winner() && s.score.spec_of(winner) > s.score.spec_of(
            winner.spec_opposite(),
        ),
{
}

/// Every tick leaves the session well-formed, whatever the input:
/// in particular, each paddle's center never leaves `[half height,
/// field height - half height]` and the ball's horizontal speed
/// never passes the cap.
pub proof fn lemma_tick_preserves_wf(s: Session, input: TickInput, dt: int)
    requires
        s.wf(),
        0 <= dt <= MAX_DT,
    ensures
        s.spec_tick(input, dt).0.wf(),
{
    if !input.abandon {
        match s.phase {
            MatchPhase::Counting { remaining } => {
                if remaining - dt < 0 {
                    lemma_play_preserves_wf(
                        Session { phase: MatchPhase::Active, ..s },
                        input,
                        dt,
                        true,
                    );
                }
            },
            MatchPhase::Active => {
                lemma_play_preserves_wf(s, input, dt, false);
            },
            MatchPhase::AwaitingDecision { .. } => {},
        }
    }
}

/// Well-formedness holds along every run: after any number of
/// frames of any fixed input, the session is still well-formed.
pub proof fn lemma_ticks_preserve_wf(s: Session, input: TickInput, dt: int, n: nat)
    requires
        s.wf(),
        0 <= dt <= MAX_DT,
    ensures
        s.spec_ticks(input, dt, n).wf(),
    decreases n,
{
    if n > 0 {
        lemma_ticks_preserve_wf(s, input, dt, (n - 1) as nat);
        lemma_tick_preserves_wf(s.spec_ticks(input, dt, (n - 1) as nat), input, dt);
    }
}

/// At a fixed 60 Hz frame (1000 time units), a session that starts a
/// round keeps counting through frame `n` for `n <= 180`, with
/// exactly `COUNTDOWN_TIME - n * 1000` time units left and nothing
/// else of the session touched.
pub proof fn lemma_countdown_counts_down(s: Session, input: TickInput, n: nat)
    requires
        s.wf(),
        s.phase == (MatchPhase::Counting { remaining: COUNTDOWN_TIME }),
        !input.abandon,
        n <= 180,
    ensures
        s.spec_ticks(input, 1000, n) == (Session {
            phase: MatchPhase::Counting { remaining: (COUNTDOWN_TIME - n * 1000) as i64 },
            ..s
        }),
    decreases n,
{
    if n == 0 {
        assert(s.spec_ticks(input, 1000, 0) == s);
    } else {
        lemma_countdown_counts_down(s, input, (n - 1) as nat);
    }
}

/// The countdown gates play: at a fixed 60 Hz frame, play is still
/// disabled after each of the first 180 frames — the accumulated
/// time has not yet passed 3 seconds — and the 181st frame, the
/// first whose accumulated time exceeds 3 seconds, announces the
/// countdown's end and enables play.
pub proof fn lemma_countdown_gates_play(s: Session, input: TickInput)
    requires
        s.wf(),
        s.ball == Ball::spec_initial(),
        s.phase == (MatchPhase::Counting { remaining: COUNTDOWN_TIME }),
        !input.abandon,
    ensures
        forall|n: nat|
            n <= 180 ==> (#[trigger] s.spec_ticks(input, 1000, n)).phase == (MatchPhase::Counting {
                remaining: (COUNTDOWN_TIME - n * 1000) as i64,
            }),
        s.spec_ticks(input, 1000, 180).spec_tick(input, 1000).1.countdown_end,
        s.spec_ticks(input, 1000, 181).phase == MatchPhase::Active,
{
    assert forall|n: nat| n <= 180 implies (#[trigger] s.spec_ticks(input, 1000, n)).phase == (
    MatchPhase::Counting { remaining: (COUNTDOWN_TIME - n * 1000) as i64 }) by {
        lemma_countdown_counts_down(s, input, n);
    }
    lemma_countdown_counts_down(s, input, 180);
    let rested = s.spec_ticks(input, 1000, 180);
    assert(rested.ball == Ball::spec_initial());
    let armed = Session { phase: MatchPhase::Active, ..rested };
    assert(s.spec_ticks(input, 1000, 181) == armed.spec_play(input, 1000, true).0);
    assert(armed.spec_play(input, 1000, true).0.phase == MatchPhase::Active) by {
        let moved = armed.ball.spec_moved(1000);
        assert(crate::motion::spec_displacement(
            crate::config::BALL_START_SPEED as int,
            1000,
        ) == 5_000);
        assert(crate::motion::spec_displacement(0, 1000) == 0);
        assert(moved.x == 405_000 && moved.y == crate::config::CENTER_Y);
    }
}

} // verus!
