//! Aggregation of many independent trials into cumulative win/tie counts.

use vstd::prelude::*;

use crate::trial::TrialOutcome;
use crate::trial::run_trial;

verus! {

/// Cumulative counts over a set of trials: how many Alice won, how many Bob
/// won, and how many tied.
#[derive(Clone, Copy, Debug, PartialEq, Eq, Structural)]
pub struct GameTally {
    pub alice_wins: u32,
    pub bob_wins: u32,
    pub ties: u32,
}

/// Number of trials a tally accounts for.
pub open spec fn tally_total(t: GameTally) -> int {
    t.alice_wins + t.bob_wins + t.ties
}

impl GameTally {
    /// The tally of zero trials.
    pub fn zero() -> (r: GameTally)
        ensures
            r.alice_wins == 0 && r.bob_wins == 0 && r.ties == 0,
    {
        GameTally { alice_wins: 0, bob_wins: 0, ties: 0 }
    }

    /// The one-hot tally of a single trial.
    pub fn of_outcome(outcome: TrialOutcome) -> (r: GameTally)
        ensures
            r.alice_wins == (if outcome == TrialOutcome::AliceWin { 1int } else { 0int }),
            r.bob_wins == (if outcome == TrialOutcome::BobWin { 1int } else { 0int }),
            r.ties == (if outcome == TrialOutcome::Tie { 1int } else { 0int }),
            tally_total(r) == 1,
    {
        match outcome {
            TrialOutcome::AliceWin => GameTally { alice_wins: 1, bob_wins: 0, ties: 0 },
            TrialOutcome::BobWin => GameTally { alice_wins: 0, bob_wins: 1, ties: 0 },
            TrialOutcome::Tie => GameTally { alice_wins: 0, bob_wins: 0, ties: 1 },
        }
    }

    /// Adds two tallies over disjoint sets of trials, counter by counter.
    pub fn add(self, other: GameTally) -> (r: GameTally)
        requires
            self.alice_wins + other.alice_wins <= u32::MAX,
            self.bob_wins + other.bob_wins <= u32::MAX,
            self.ties + other.ties <= u32::MAX,
        ensures
            r.alice_wins == self.alice_wins + other.alice_wins,
            r.bob_wins == self.bob_wins + other.bob_wins,
            r.ties == self.ties + other.ties,
            tally_total(r) == tally_total(self) + tally_total(other),
    {
        GameTally {
            alice_wins: self.alice_wins + other.alice_wins,
            bob_wins: self.bob_wins + other.bob_wins,
            ties: self.ties + other.ties,
        }
    }
}

/// Runs `game_count` independent trials of `flip_count` flips each and sums
/// their outcomes. The three counters always sum exactly to `game_count`;
/// with fewer than two flips per trial every trial ties.
pub fn run_experiment(game_count: u32, flip_count: u64) -> (r: GameTally)
    ensures
        tally_total(r) == game_count,
        flip_count < 2 ==> r.ties == game_count,
{
    let mut tally = GameTally::zero();
    let mut played: u32 = 0;
    while played < game_count
        invariant
            played <= game_count,
            tally_total(tally) == played,
            flip_count < 2 ==> tally.ties == played,
        decreases game_count - played,
    {
        let outcome = run_trial(flip_count);
        tally = tally.add(GameTally::of_outcome(outcome));
        played = played + 1;
    }
    tally
}

} // verus!
