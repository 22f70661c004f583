use coin_duel::summary::FlipOutcome;
use coin_duel::summary::PartialSummary;
use coin_duel::summary::RunSummary;
use coin_duel::summary::alice_wins;
use coin_duel::summary::bob_wins;
use coin_duel::summary::combine;
use coin_duel::summary::identity;
use coin_duel::summary::lift;

use FlipOutcome::Heads;
use FlipOutcome::Tails;

fn fold_flips(flips: &[FlipOutcome]) -> PartialSummary {
    let mut summary = identity();
    for &flip in flips {
        summary = combine(summary, lift(flip));
    }
    summary
}

fn run_of(summary: PartialSummary) -> RunSummary {
    match summary {
        PartialSummary::Run(run) => run,
        other => panic!("expected a run summary, got {:?}", other),
    }
}

#[test]
fn pair_scoring_all_four_combinations() {
    assert_eq!(alice_wins(Heads, Heads), 1);
    assert_eq!(alice_wins(Heads, Tails), 0);
    assert_eq!(alice_wins(Tails, Heads), 0);
    assert_eq!(alice_wins(Tails, Tails), 0);
    assert_eq!(bob_wins(Heads, Heads), 0);
    assert_eq!(bob_wins(Heads, Tails), 1);
    assert_eq!(bob_wins(Tails, Heads), 0);
    assert_eq!(bob_wins(Tails, Tails), 0);
}

#[test]
fn identity_law_on_samples() {
    let samples = [
        identity(),
        lift(Heads),
        lift(Tails),
        fold_flips(&[Heads, Tails]),
        fold_flips(&[Heads, Heads, Tails, Heads]),
    ];
    for s in samples {
        assert_eq!(combine(identity(), s), s);
        assert_eq!(combine(s, identity()), s);
    }
}

#[test]
fn associativity_on_samples() {
    let values = [
        identity(),
        lift(Heads),
        lift(Tails),
        fold_flips(&[Heads, Heads]),
        fold_flips(&[Tails, Heads, Tails]),
    ];
    for a in values {
        for b in values {
            for c in values {
                assert_eq!(combine(combine(a, b), c), combine(a, combine(b, c)));
            }
        }
    }
}

#[test]
fn order_sensitivity_of_combine() {
    let ht = run_of(combine(lift(Heads), lift(Tails)));
    assert_eq!(ht.alice_points, 0);
    assert_eq!(ht.bob_points, 1);

    let th = run_of(combine(lift(Tails), lift(Heads)));
    assert_eq!(th.alice_points, 0);
    assert_eq!(th.bob_points, 0);
}

#[test]
fn boundary_pairs_of_three_heads() {
    let run = run_of(fold_flips(&[Heads, Heads, Heads]));
    assert_eq!(run.length, 3);
    assert_eq!(run.first, Heads);
    assert_eq!(run.last, Heads);
    assert_eq!(run.alice_points, 2);
    assert_eq!(run.bob_points, 0);
}

#[test]
fn boundary_pairs_of_alternating_flips() {
    let run = run_of(fold_flips(&[Heads, Tails, Heads, Tails]));
    assert_eq!(run.length, 4);
    assert_eq!(run.first, Heads);
    assert_eq!(run.last, Tails);
    assert_eq!(run.alice_points, 0);
    assert_eq!(run.bob_points, 2);
}

#[test]
fn partition_invariance_on_fixed_sequence() {
    let flips = [Heads, Tails, Heads, Heads, Tails, Tails, Heads];
    let whole = fold_flips(&flips);
    for split_a in 0..=flips.len() {
        for split_b in split_a..=flips.len() {
            let left = fold_flips(&flips[..split_a]);
            let middle = fold_flips(&flips[split_a..split_b]);
            let right = fold_flips(&flips[split_b..]);
            assert_eq!(combine(combine(left, middle), right), whole);
            assert_eq!(combine(left, combine(middle, right)), whole);
        }
    }
}
