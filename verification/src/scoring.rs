//! How environments turn what happened in a tick into a reward, and how the
//! brick board keeps its score.

use vstd::prelude::*;

verus! {

/// The rule by which an environment rewards a tick.
#[derive(Clone, Copy, Debug, PartialEq, Eq, Structural)]
pub enum RewardPolicy {
    /// The same reward for every tick.
    Constant(i64),
    /// The number of ticks survived so far in the episode.
    Survival,
    /// A quantity the environment measures, such as a position.
    Measured,
}

/// A reward policy together with the ticks survived in the current episode.
#[derive(Clone, Copy, Debug, PartialEq, Eq, Structural)]
pub struct RewardShaper {
    pub policy: RewardPolicy,
    pub survived: i64,
}

impl RewardShaper {
    /// The reward of a tick on which the environment measured `measured`.
    pub open spec fn reward_of(&self, measured: i64) -> i64 {
        match self.policy {
            RewardPolicy::Constant(reward) => reward,
            RewardPolicy::Survival => self.survived,
            RewardPolicy::Measured => measured,
        }
    }

    /// The ticks survived once a tick is over: none if it ended the episode,
    /// one more otherwise.
    pub open spec fn survived_after(&self, done: bool) -> int {
        if done {
            0
        } else {
            self.survived + 1
        }
    }

    /// A shaper at the start of an episode.
    pub fn new(policy: RewardPolicy) -> (shaper: RewardShaper)
        ensures
            shaper == (RewardShaper { policy, survived: 0 }),
    {
        RewardShaper { policy, survived: 0 }
    }

    /// Rewards one tick and counts it as survived, or starts counting again
    /// if the tick ended the episode.
    pub fn reward(&mut self, measured: i64, done: bool) -> (reward: i64)
        requires
            old(self).survived < i64::MAX,
        ensures
            reward == old(self).reward_of(measured),
            final(self).policy == old(self).policy,
            final(self).survived == old(self).survived_after(done),
    {
        let reward = match self.policy {
            RewardPolicy::Constant(reward) => reward,
            RewardPolicy::Survival => self.survived,
            RewardPolicy::Measured => measured,
        };
        if done {
            self.survived = 0;
        } else {
            self.survived = self.survived + 1;
        }
        reward
    }
}

/// The score of a brick board: the bricks destroyed so far, out of the
/// bricks the board started with.
#[derive(Clone, Copy, Debug, PartialEq, Eq, Structural)]
pub struct BrickScore {
    pub score: usize,
    pub bricks: usize,
}

/// What the contacts of one tick lead to.
#[derive(Clone, Copy, Debug, PartialEq, Eq, Structural)]
pub struct ContactOutcome {
    /// How many of the bricks that were hit are destroyed and scored.
    pub destroyed: usize,
    /// The episode is over: the board is cleared or the ball hit the bottom.
    pub reset: bool,
    /// The hit marks on everything else are to be removed.
    pub clear_marks: bool,
}

impl BrickScore {
    /// Whether `hits` more bricks complete the board.
    pub open spec fn completes(&self, hits: usize) -> bool {
        self.score < self.bricks && self.bricks - self.score <= hits
    }

    /// How many of `hits` bricks are scored: all of them, or as many as it
    /// takes to clear the board.
    pub open spec fn scored(&self, hits: usize) -> int {
        if self.completes(hits) {
            self.bricks - self.score
        } else {
            hits as int
        }
    }

    /// What `brick_hits` bricks hit and a bottom that was or was not hit lead
    /// to. Clearing the board ends the episode at once; failing that, a hit
    /// on the bottom ends it; failing both, the marks are cleared and play
    /// goes on.
    pub open spec fn outcome_of(&self, brick_hits: usize, bottom_hit: bool) -> ContactOutcome {
        ContactOutcome {
            destroyed: self.scored(brick_hits) as usize,
            reset: self.completes(brick_hits) || bottom_hit,
            clear_marks: !(self.completes(brick_hits) || bottom_hit),
        }
    }

    /// The score of a new board of `bricks` bricks.
    pub fn new(bricks: usize) -> (board: BrickScore)
        ensures
            board == (BrickScore { score: 0, bricks }),
    {
        BrickScore { score: 0, bricks }
    }

    /// Scores the contacts of one tick.
    pub fn record_contacts(&mut self, brick_hits: usize, bottom_hit: bool) -> (outcome:
        ContactOutcome)
        requires
            old(self).score < old(self).bricks || old(self).score + brick_hits <= usize::MAX,
        ensures
            outcome == old(self).outcome_of(brick_hits, bottom_hit),
            final(self).bricks == old(self).bricks,
            final(self).score == old(self).score + old(self).scored(brick_hits),
    {
        if self.score < self.bricks && self.bricks - self.score <= brick_hits {
            let destroyed: usize = self.bricks - self.score;
            self.score = self.bricks;
            ContactOutcome { destroyed, reset: true, clear_marks: false }
        } else {
            self.score = self.score + brick_hits;
            ContactOutcome { destroyed: brick_hits, reset: bottom_hit, clear_marks: !bottom_hit }
        }
    }

    /// Starts the score again for a new episode.
    pub fn restart(&mut self)
        ensures
            *final(self) == (BrickScore { score: 0, bricks: old(self).bricks }),
    {
        self.score = 0;
    }
}

} // verus!
