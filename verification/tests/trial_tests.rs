use coin_duel::summary::FlipOutcome;
use coin_duel::summary::combine;
use coin_duel::summary::identity;
use coin_duel::summary::lift;
use coin_duel::trial::TrialOutcome;
use coin_duel::trial::classify;
use coin_duel::trial::next_flip;
use coin_duel::trial::run_trial;

use FlipOutcome::Heads;
use FlipOutcome::Tails;

#[test]
fn too_short_trials_always_tie() {
    for _ in 0..20 {
        assert_eq!(run_trial(0), TrialOutcome::Tie);
        assert_eq!(run_trial(1), TrialOutcome::Tie);
    }
}

#[test]
fn classify_short_summaries_as_ties() {
    assert_eq!(classify(&identity()), TrialOutcome::Tie);
    assert_eq!(classify(&lift(Heads)), TrialOutcome::Tie);
    assert_eq!(classify(&lift(Tails)), TrialOutcome::Tie);
}

#[test]
fn three_heads_win_for_alice() {
    let summary = combine(combine(lift(Heads), lift(Heads)), lift(Heads));
    assert_eq!(classify(&summary), TrialOutcome::AliceWin);
}

#[test]
fn alternating_flips_win_for_bob() {
    let mut summary = identity();
    for flip in [Heads, Tails, Heads, Tails] {
        summary = combine(summary, lift(flip));
    }
    assert_eq!(classify(&summary), TrialOutcome::BobWin);
}

#[test]
fn equal_points_tie() {
    // Heads, Heads, Tails: one pair for Alice, one for Bob.
    let summary = combine(combine(lift(Heads), lift(Heads)), lift(Tails));
    assert_eq!(classify(&summary), TrialOutcome::Tie);
}

#[test]
fn next_flip_returns_a_flip() {
    for _ in 0..100 {
        let flip = next_flip();
        assert!(matches!(flip, Heads | Tails));
    }
}
