use vstd::prelude::*;
use vstd::string::StringExecFns;

use crate::text::{decimal, push_decimal};

verus! {

/// The scoring zone at one side of the board. The ball entering a zone gives
/// the point to the player on the other side.
#[derive(Clone, Copy, Debug, PartialEq, Eq, Structural)]
pub enum ScoreField {
    Left,
    Right,
}

/// The points of the left player (`player1`) and of the right one (`player2`).
#[derive(Clone, Copy, Debug, PartialEq, Eq, Structural)]
pub struct Score {
    pub player1: u32,
    pub player2: u32,
}

/// `n + 1`, held at the largest counter.
pub open spec fn bumped(n: u32) -> u32 {
    if n < u32::MAX {
        (n + 1) as u32
    } else {
        n
    }
}

/// The text of the scoreboard, as in `3 - 1`.
pub open spec fn score_text(player1: nat, player2: nat) -> Seq<char> {
    decimal(player1) + " - "@ + decimal(player2)
}

impl Score {
    /// The score after the ball entered `field`: the zone at the right gives the
    /// left player a point, the zone at the left the right player.
    pub open spec fn with_point(self, field: ScoreField) -> Score {
        match field {
            ScoreField::Right => Score { player1: bumped(self.player1), ..self },
            ScoreField::Left => Score { player2: bumped(self.player2), ..self },
        }
    }

    /// Neither counter of `later` is below that of `self`.
    pub open spec fn le(self, later: Score) -> bool {
        self.player1 <= later.player1 && self.player2 <= later.player2
    }

    pub fn new() -> (r: Score)
        ensures
            r.player1 == 0,
            r.player2 == 0,
    {
        Score { player1: 0, player2: 0 }
    }

    pub fn reset(&mut self)
        ensures
            final(self).player1 == 0,
            final(self).player2 == 0,
    {
        self.player1 = 0;
        self.player2 = 0;
    }

    pub fn add_point(&mut self, field: &ScoreField)
        ensures
            *final(self) == old(self).with_point(*field),
            old(self).le(*final(self)),
            old(self).player1 < u32::MAX && old(self).player2 < u32::MAX ==> final(self).player1
                + final(self).player2 == old(self).player1 + old(self).player2 + 1,
    {
        match field {
            ScoreField::Right => {
                if self.player1 < u32::MAX {
                    self.player1 = self.player1 + 1;
                }
            },
            ScoreField::Left => {
                if self.player2 < u32::MAX {
                    self.player2 = self.player2 + 1;
                }
            },
        }
    }

    pub fn display_text(&self) -> (r: String)
        ensures
            r@ == score_text(self.player1 as nat, self.player2 as nat),
    {
        let mut s = String::new();
        push_decimal(&mut s, self.player1);
        s.append(" - ");
        push_decimal(&mut s, self.player2);
        assert(s@ =~= score_text(self.player1 as nat, self.player2 as nat));
        s
    }
}

impl Default for Score {
    fn default() -> (r: Score)
        ensures
            r.player1 == 0,
            r.player2 == 0,
    {
        Score::new()
    }
}

} // verus!

verus! {

/// The score after the points `fields`, counted in order.
pub open spec fn score_after(s: Score, fields: Seq<ScoreField>) -> Score
    decreases fields.len(),
{
    if fields.len() == 0 {
        s
    } else {
        score_after(s, fields.drop_last()).with_point(fields.last())
    }
}

/// Counting points never lowers a counter: along any run of scoring events the
/// score after a longer prefix is at least the score after a shorter one.
pub proof fn lemma_score_monotone(s: Score, fields: Seq<ScoreField>, i: int, j: int)
    requires
        0 <= i <= j <= fields.len(),
    ensures
        score_after(s, fields.take(i)).le(score_after(s, fields.take(j))),
        s.le(score_after(s, fields)),
    decreases j,
{
    if j > i {
        lemma_score_monotone(s, fields, i, j - 1);
        assert(fields.take(j).drop_last() =~= fields.take(j - 1));
    }
    lemma_score_prefix(s, fields);
}

proof fn lemma_score_prefix(s: Score, fields: Seq<ScoreField>)
    ensures
        s.le(score_after(s, fields)),
    decreases fields.len(),
{
    if fields.len() > 0 {
        lemma_score_prefix(s, fields.drop_last());
    }
}

/// Counts the points `fields` in order.
pub fn add_points(score: &mut Score, fields: &Vec<ScoreField>)
    ensures
        *final(score) == score_after(*old(score), fields@),
{
    let mut i: usize = 0;
    while i < fields.len()
        invariant
            i <= fields@.len(),
            *score == score_after(*old(score), fields@.take(i as int)),
        decreases fields@.len() - i,
    {
        assert(fields@.take(i + 1).drop_last() =~= fields@.take(i as int));
        score.add_point(&fields[i]);
        i = i + 1;
    }
    assert(fields@.take(fields@.len() as int) =~= fields@);
}

} // verus!
