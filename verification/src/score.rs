//! The match score: one point per round to the side the ball did not
//! exit through, up to the winning threshold.

use vstd::prelude::*;
use crate::config::{Side, WIN_SCORE};

verus! {

/// Points held by each side.
#[derive(Clone, Copy, PartialEq, Eq, Structural, Debug)]
pub struct Score {
    /// The left player's points.
    pub left: u32,
    /// The right player's points.
    pub right: u32,
}

impl Score {
    /// A score the session can hold: neither side past the winning
    /// threshold, and at most one side at it, since the match ends
    /// the moment a side reaches it.
    pub open spec fn wf(self) -> bool {
        &&& self.left <= WIN_SCORE
        &&& self.right <= WIN_SCORE
        &&& !(self.left == WIN_SCORE && self.right == WIN_SCORE)
    }

    /// Whether the match is over: a side holds the winning score.
    pub open spec fn spec_match_over(self) -> bool {
        self.left == WIN_SCORE || self.right == WIN_SCORE
    }

    /// The winner once the match is over: the side at the winning
    /// score.
    pub open spec fn spec_winner(self) -> Side {
        if self.left == WIN_SCORE {
            Side::Left
        } else {
            Side::Right
        }
    }

    /// The score a match starts with.
    pub fn new() -> (r: Score)
        ensures
            r.wf(),
            r.left == 0,
            r.right == 0,
    {
        Score { left: 0, right: 0 }
    }

    /// Clears both sides for a rematch.
    pub fn reset(&mut self)
        ensures
            final(self).left == 0,
            final(self).right == 0,
            final(self).wf(),
    {
        self.left = 0;
        self.right = 0;
    }

    /// The points one side holds.
    pub fn of(&self, side: Side) -> (r: u32)
        ensures
            r == self.spec_of(side),
    {
        match side {
            Side::Left => self.left,
            Side::Right => self.right,
        }
    }

    /// What `of` returns.
    pub open spec fn spec_of(self, side: Side) -> u32 {
        match side {
            Side::Left => self.left,
            Side::Right => self.right,
        }
    }

    /// What `award` leaves in the score.
    pub open spec fn spec_award(self, side: Side) -> Score {
        match side {
            Side::Left => Score { left: (self.left + 1) as u32, right: self.right },
            Side::Right => Score { left: self.left, right: (self.right + 1) as u32 },
        }
    }

    /// Awards one round's point.  Exactly the given side's count
    /// rises, by exactly 1; the other side's count is unchanged.
    pub fn award(&mut self, side: Side)
        requires
            old(self).left < WIN_SCORE,
            old(self).right < WIN_SCORE,
        ensures
            *final(self) == old(self).spec_award(side),
            final(self).spec_of(side) == old(self).spec_of(side) + 1,
            final(self).spec_of(side.spec_opposite()) == old(self).spec_of(side.spec_opposite()),
            final(self).wf(),
            final(self).spec_match_over() <==> old(self).spec_of(side) + 1 == WIN_SCORE,
            final(self).spec_match_over() ==> final(self).spec_winner() == side,
    {
        match side {
            Side::Left => {
                self.left = self.left + 1;
            },
            Side::Right => {
                self.right = self.right + 1;
            },
        }
    }

    /// Whether the match is over (the executable mirror of
    /// `spec_match_over`).
    pub fn match_over(&self) -> (r: bool)
        ensures
            r == self.spec_match_over(),
    {
        self.left == WIN_SCORE || self.right == WIN_SCORE
    }
}

/// Once the match is over, the reported winner is the side holding
/// the strictly higher score: the winner sits at the threshold and
/// the other side below it.
pub proof fn lemma_winner_scores_higher(s: Score)
    requires
        s.wf(),
        s.spec_match_over(),
    ensures
        s.spec_of(s.spec_winner()) == WIN_SCORE,
        s.spec_of(s.spec_winner()) > s.spec_of(s.spec_winner().spec_opposite()),
{
}

} // verus!
