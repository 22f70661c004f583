//! One game trial: draw a sequence of fair coin flips, fold it through the
//! scoring algebra, and classify the resulting summary as a win for Alice, a
//! win for Bob, or a tie.

use vstd::prelude::*;

use crate::summary::FlipOutcome;
use crate::summary::PartialSummary;
use crate::summary::SummaryView;
use crate::summary::combine;
use crate::summary::identity;
use crate::summary::lift;
use crate::summary::lemma_combine_len;
use crate::summary::summary_of;
use crate::summary::view_combine;
use crate::summary::view_len;
use crate::summary::view_wf;

verus! {

/// The result of one complete trial.
#[derive(Clone, Copy, Debug, PartialEq, Eq, Structural)]
pub enum TrialOutcome {
    AliceWin,
    BobWin,
    Tie,
}

/// Classification of a summary: a range with fewer than two flips has no
/// scorable pair and ties; a run goes to whoever holds strictly more points.
pub open spec fn spec_outcome(v: SummaryView) -> TrialOutcome {
    match v {
        SummaryView::Empty => TrialOutcome::Tie,
        SummaryView::Single(_) => TrialOutcome::Tie,
        SummaryView::Run { alice_points, bob_points, .. } => if alice_points > bob_points {
            TrialOutcome::AliceWin
        } else if bob_points > alice_points {
            TrialOutcome::BobWin
        } else {
            TrialOutcome::Tie
        },
    }
}

/// Converts a finished summary into the trial's outcome.
pub fn classify(summary: &PartialSummary) -> (r: TrialOutcome)
    ensures
        r == spec_outcome(summary@),
{
    match summary {
        PartialSummary::Empty => TrialOutcome::Tie,
        PartialSummary::Single(_) => TrialOutcome::Tie,
        PartialSummary::Run(run) => {
            if run.alice_points > run.bob_points {
                TrialOutcome::AliceWin
            } else if run.bob_points > run.alice_points {
                TrialOutcome::BobWin
            } else {
                TrialOutcome::Tie
            }
        },
    }
}

/// Relies on rand::random: draws one uniformly random boolean from the
/// calling thread's own random stream. Nothing is promised of the value;
/// every caller must be correct for both outcomes.
#[verifier::external_body]
fn random_bool() -> bool {
    rand::random::<bool>()
}

/// Turns one raw boolean draw into a flip outcome: true is Heads.
pub fn flip_from_bool(heads: bool) -> (r: FlipOutcome)
    ensures
        r == (if heads {
            FlipOutcome::Heads
        } else {
            FlipOutcome::Tails
        }),
{
    if heads {
        FlipOutcome::Heads
    } else {
        FlipOutcome::Tails
    }
}

/// Draws one fair coin flip. Either outcome may come back.
pub fn next_flip() -> FlipOutcome {
    flip_from_bool(random_bool())
}

/// Draws `flip_count` random flips and folds them through the scoring
/// algebra. The result is the exact summary of some flip sequence of that
/// length; which sequence depends on the random draws alone.
pub fn game_result(flip_count: u64) -> (r: PartialSummary)
    ensures
        exists|fs: Seq<FlipOutcome>| fs.len() == flip_count && r@ == summary_of(fs),
        view_wf(r@),
        view_len(r@) == flip_count,
{
    let mut summary = identity();
    let ghost mut flips: Seq<FlipOutcome> = Seq::empty();
    let mut i: u64 = 0;
    while i < flip_count
        invariant
            i <= flip_count,
            flips.len() == i,
            summary@ == summary_of(flips),
            view_wf(summary@),
            view_len(summary@) == i,
        decreases flip_count - i,
    {
        let flip = next_flip();
        let single = lift(flip);
        proof {
            lemma_combine_len(summary@, single@);
        }
        summary = combine(summary, single);
        proof {
            let pushed = flips.push(flip);
            assert(pushed.drop_last() =~= flips);
            assert(pushed.last() == flip);
            flips = pushed;
        }
        i = i + 1;
    }
    proof {
        assert(flips.len() == flip_count && summary@ == summary_of(flips));
    }
    summary
}

/// Runs one complete trial of `flip_count` random flips and reports who won.
/// The outcome is the classification of the exact summary of some flip
/// sequence of that length; with fewer than two flips no pair can be scored,
/// so the trial always ties.
pub fn run_trial(flip_count: u64) -> (r: TrialOutcome)
    ensures
        exists|fs: Seq<FlipOutcome>| fs.len() == flip_count && r == spec_outcome(summary_of(fs)),
        flip_count < 2 ==> r == TrialOutcome::Tie,
{
    let summary = game_result(flip_count);
    let outcome = classify(&summary);
    proof {
        let fs = choose|fs: Seq<FlipOutcome>| fs.len() == flip_count && summary@ == summary_of(fs);
        assert(fs.len() == flip_count && outcome == spec_outcome(summary_of(fs)));
        if flip_count < 2 {
            if fs.len() == 1 {
                assert(fs.drop_last().len() == 0);
                assert(summary_of(fs) == view_combine(SummaryView::Empty, SummaryView::Single(fs.last())));
            }
        }
    }
    outcome
}

} // verus!
