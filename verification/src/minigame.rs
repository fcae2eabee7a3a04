//! The guessing game: five rounds of calling which way the pet will turn.
//!
//! The randomness is a xorshift seeded off the host clock rather than a
//! hardware generator. Guessing the next turn from the last one is not a
//! threat worth a system call.

use vstd::prelude::*;

verus! {

pub const ROUNDS: u32 = 5;

/// What a [`MiniGame`] holds.
pub struct MiniGameModel {
    pub rng: u32,
    pub round: u32,
    pub wins: u32,
    pub choice: u32,
    pub last: Option<(u32, bool)>,
}

pub struct MiniGame {
    rng: u32,
    round: u32,
    wins: u32,
    /// 0 = left, 1 = right.
    choice: u32,
    /// The previous round's answer and whether it was called right, if any.
    last: Option<(u32, bool)>,
}

impl View for MiniGame {
    type V = MiniGameModel;

    closed spec fn view(&self) -> MiniGameModel {
        MiniGameModel {
            rng: self.rng,
            round: self.round,
            wins: self.wins,
            choice: self.choice,
            last: self.last,
        }
    }
}

/// One step of the xorshift generator.
pub open spec fn xorshift(x: u32) -> u32 {
    let a = x ^ (x << 13u32);
    let b = a ^ (a >> 17u32);
    b ^ (b << 5u32)
}

impl MiniGameModel {
    /// Never more rounds won than played.
    pub open spec fn wf(self) -> bool {
        self.wins <= self.round
    }

    /// The game after a round called on `side`, and what the call returns:
    /// the rounds won once the series is over, `None` while it goes on.
    pub open spec fn answered(self, side: u32) -> (Option<u32>, MiniGameModel) {
        let rng = xorshift(self.rng);
        let answer = rng & 1;
        let choice = side & 1;
        let right = answer == choice;
        let wins = if right {
            self.wins + 1
        } else {
            self.wins as int
        };
        let round = self.round + 1;
        (
            if round >= ROUNDS {
                Some(wins as u32)
            } else {
                None
            },
            MiniGameModel {
                rng,
                round: round as u32,
                wins: wins as u32,
                choice,
                last: Some((answer, right)),
            },
        )
    }
}

impl MiniGame {
    pub fn new(seed_ms: u64) -> (r: Self)
        ensures
            r@ == (MiniGameModel {
                rng: (seed_ms as u32) | 1u32,
                round: 0,
                wins: 0,
                choice: 0,
                last: None,
            }),
            r@.wf(),
    {
        // Any non-zero seed will do; xorshift is stuck at zero.
        let seed = (seed_ms as u32) | 1;
        MiniGame { rng: seed, round: 0, wins: 0, choice: 0, last: None }
    }

    fn next_bit(&mut self) -> (r: u32)
        ensures
            final(self)@ == (MiniGameModel { rng: xorshift(old(self)@.rng), ..old(self)@ }),
            r == xorshift(old(self)@.rng) & 1,
    {
        self.rng = self.rng ^ (self.rng << 13u32);
        self.rng = self.rng ^ (self.rng >> 17u32);
        self.rng = self.rng ^ (self.rng << 5u32);
        self.rng & 1
    }

    /// Call the round: point left (0) or right (1). One press is the whole
    /// interaction.
    ///
    /// Returns the number of rounds won once the series is over, and `None`
    /// while it is still going.
    pub fn answer(&mut self, side: u32) -> (r: Option<u32>)
        requires
            old(self)@.wf(),
            old(self)@.round < u32::MAX,
        ensures
            (r, final(self)@) == old(self)@.answered(side),
            final(self)@.wf(),
    {
        self.choice = side & 1;
        let answer = self.next_bit();
        let right = answer == self.choice;
        if right {
            self.wins = self.wins + 1;
        }
        self.last = Some((answer, right));
        self.round = self.round + 1;
        if self.round >= ROUNDS {
            Some(self.wins)
        } else {
            None
        }
    }

    /// Rounds played so far.
    pub fn round(&self) -> (r: u32)
        ensures
            r == self@.round,
    {
        self.round
    }

    /// The round to show in the header, counting from 1: the one being played,
    /// or the last once the series is over.
    pub fn round_shown(&self) -> (r: u32)
        ensures
            r == (if self@.round < ROUNDS {
                self@.round + 1
            } else {
                ROUNDS as int
            }),
    {
        if self.round < ROUNDS {
            self.round + 1
        } else {
            ROUNDS
        }
    }

    /// The previous round's answer and whether it was called right, if any.
    pub fn last(&self) -> (r: Option<(u32, bool)>)
        ensures
            r == self@.last,
    {
        self.last
    }

    /// How far, in pixels, the pet leans on screen: the way it turned last
    /// round (left for side 0, right otherwise), so the reveal is visible
    /// without a screen of its own; upright before the first round.
    pub fn lean(&self) -> (r: isize)
        ensures
            r == (match self@.last {
                Some((0, _)) => -14isize,
                Some(_) => 14isize,
                None => 0isize,
            }),
    {
        match self.last {
            Some((0, _)) => -14,
            Some(_) => 14,
            None => 0,
        }
    }
}

/// A round called on `side` is called right exactly when the pet turns to
/// that side (0 or 1, by the side's lowest bit), and then, and only then, adds
/// a win; the round count moves on by one; the last round's turn and verdict
/// are reported; and the series returns the wins once the last round is
/// played, nothing before.
pub proof fn lemma_a_round_scores_what_was_called(m: MiniGameModel, side: u32)
    requires
        m.wf(),
        m.round < u32::MAX,
    ensures
        ({
            let (r, n) = m.answered(side);
            let turn = xorshift(m.rng) & 1;
            let right = turn == side % 2;
            &&& turn <= 1
            &&& n.last == Some((turn, right))
            &&& n.wins == m.wins + (if right {
                1int
            } else {
                0int
            })
            &&& n.round == m.round + 1
            &&& n.wf()
            &&& r == (if n.round >= ROUNDS {
                Some(n.wins)
            } else {
                None
            })
        }),
{
    let x = xorshift(m.rng);
    assert(x & 1u32 <= 1u32) by (bit_vector);
    assert(side & 1u32 == side % 2) by (bit_vector);
}

} // verus!
