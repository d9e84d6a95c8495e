use vstd::prelude::*;

verus! {

/// How fast the computer paddle may move; kept for the whole run.
#[derive(Clone, Copy, Debug, PartialEq, Eq, Structural)]
pub enum Difficulty {
    Easy,
    Difficult,
    Impossible,
}

impl Difficulty {
    /// The computer paddle's speed cap, in world units per fixed tick.
    pub open spec fn spec_speed(self) -> int {
        match self {
            Difficulty::Easy => 2,
            Difficulty::Difficult => 4,
            Difficulty::Impossible => 6,
        }
    }

    /// The rank of the level, from the easiest.
    pub open spec fn rank(self) -> int {
        match self {
            Difficulty::Easy => 0,
            Difficulty::Difficult => 1,
            Difficulty::Impossible => 2,
        }
    }

    pub fn speed(&self) -> (r: u32)
        ensures
            r == self.spec_speed(),
    {
        match self {
            Difficulty::Easy => 2,
            Difficulty::Difficult => 4,
            Difficulty::Impossible => 6,
        }
    }
}

impl Default for Difficulty {
    fn default() -> (r: Self)
        ensures
            r == Difficulty::Easy,
    {
        Difficulty::Easy
    }
}

/// A harder level never has a lower speed cap.
pub proof fn lemma_speed_monotone(a: Difficulty, b: Difficulty)
    requires
        a.rank() <= b.rank(),
    ensures
        a.spec_speed() <= b.spec_speed(),
        a.rank() < b.rank() ==> a.spec_speed() < b.spec_speed(),
{
}

} // verus!
