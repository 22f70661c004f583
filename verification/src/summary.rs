//! The core scoring algebra: partial summaries of contiguous flip ranges and
//! the associative combine operator that merges two adjacent ranges while
//! scoring their boundary pair exactly once.

use vstd::prelude::*;

verus! {

/// The outcome of one coin flip.
#[derive(Clone, Copy, Debug, PartialEq, Eq, Structural)]
pub enum FlipOutcome {
    Heads,
    Tails,
}

/// Summary of a contiguous flip range of length two or more.
///
/// `alice_points` and `bob_points` count only the adjacent pairs that lie
/// strictly inside the range; the pairs straddling its ends are scored when
/// the range is combined with a neighbour.
#[derive(Clone, Copy, Debug, PartialEq, Eq, Structural)]
pub struct RunSummary {
    pub length: u64,
    pub first: FlipOutcome,
    pub last: FlipOutcome,
    pub alice_points: u64,
    pub bob_points: u64,
}

/// Summary of a contiguous flip range: empty, a single flip (which has no
/// scorable pair yet), or a run of two or more flips.
#[derive(Clone, Copy, Debug, PartialEq, Eq, Structural)]
pub enum PartialSummary {
    Empty,
    Single(FlipOutcome),
    Run(RunSummary),
}

/// Mathematical model of a partial summary, with unbounded counts.
pub ghost enum SummaryView {
    Empty,
    Single(FlipOutcome),
    Run { length: nat, first: FlipOutcome, last: FlipOutcome, alice_points: nat, bob_points: nat },
}

impl View for PartialSummary {
    type V = SummaryView;

    open spec fn view(&self) -> SummaryView {
        match self {
            PartialSummary::Empty => SummaryView::Empty,
            PartialSummary::Single(f) => SummaryView::Single(*f),
            PartialSummary::Run(r) => SummaryView::Run {
                length: r.length as nat,
                first: r.first,
                last: r.last,
                alice_points: r.alice_points as nat,
                bob_points: r.bob_points as nat,
            },
        }
    }
}

/// Alice scores the boundary pair `(x, y)` exactly when both flips are Heads.
pub open spec fn alice_pair_score(x: FlipOutcome, y: FlipOutcome) -> nat {
    if x == FlipOutcome::Heads && y == FlipOutcome::Heads {
        1
    } else {
        0
    }
}

/// Bob scores the boundary pair `(x, y)` exactly when Heads is followed by
/// Tails. The rule is deliberately asymmetric to Alice's.
pub open spec fn bob_pair_score(x: FlipOutcome, y: FlipOutcome) -> nat {
    if x == FlipOutcome::Heads && y == FlipOutcome::Tails {
        1
    } else {
        0
    }
}

/// Number of flips a summary covers.
pub open spec fn view_len(v: SummaryView) -> nat {
    match v {
        SummaryView::Empty => 0,
        SummaryView::Single(_) => 1,
        SummaryView::Run { length, .. } => length,
    }
}

/// The combine operator on models: merges the summaries of two adjacent
/// ranges (left immediately preceding right), scoring the one boundary pair
/// formed by left's last flip and right's first flip.
pub open spec fn view_combine(a: SummaryView, b: SummaryView) -> SummaryView {
    match (a, b) {
        (SummaryView::Empty, b) => b,
        (a, SummaryView::Empty) => a,
        (SummaryView::Single(x), SummaryView::Single(y)) => SummaryView::Run {
            length: 2,
            first: x,
            last: y,
            alice_points: alice_pair_score(x, y),
            bob_points: bob_pair_score(x, y),
        },
        (SummaryView::Single(x), SummaryView::Run { length, first, last, alice_points, bob_points }) => SummaryView::Run {
            length: length + 1,
            first: x,
            last: last,
            alice_points: alice_points + alice_pair_score(x, first),
            bob_points: bob_points + bob_pair_score(x, first),
        },
        (SummaryView::Run { length, first, last, alice_points, bob_points }, SummaryView::Single(y)) => SummaryView::Run {
            length: length + 1,
            first: first,
            last: y,
            alice_points: alice_points + alice_pair_score(last, y),
            bob_points: bob_points + bob_pair_score(last, y),
        },
        (
            SummaryView::Run { length: la, first: fa, last: ta, alice_points: aa, bob_points: ba },
            SummaryView::Run { length: lb, first: fb, last: tb, alice_points: ab, bob_points: bb },
        ) => SummaryView::Run {
            length: la + lb,
            first: fa,
            last: tb,
            alice_points: aa + ab + alice_pair_score(ta, fb),
            bob_points: ba + bb + bob_pair_score(ta, fb),
        },
    }
}

/// A summary is well formed when a run covers at least two flips and its
/// point totals do not exceed the number of adjacent pairs inside the range.
pub open spec fn view_wf(v: SummaryView) -> bool {
    match v {
        SummaryView::Empty => true,
        SummaryView::Single(_) => true,
        SummaryView::Run { length, alice_points, bob_points, .. } => 2 <= length
            && alice_points + bob_points <= length - 1,
    }
}

/// The summary of a zero-length range: the identity of `combine`.
pub fn identity() -> (r: PartialSummary)
    ensures
        r@ == SummaryView::Empty,
{
    PartialSummary::Empty
}

/// Promotes one raw flip into the algebra as a length-one summary.
pub fn lift(outcome: FlipOutcome) -> (r: PartialSummary)
    ensures
        r@ == SummaryView::Single(outcome),
{
    PartialSummary::Single(outcome)
}

/// Alice's score for the boundary pair `(a, b)`.
pub fn alice_wins(a: FlipOutcome, b: FlipOutcome) -> (r: u64)
    ensures
        r == alice_pair_score(a, b),
{
    match (a, b) {
        (FlipOutcome::Heads, FlipOutcome::Heads) => 1,
        _ => 0,
    }
}

/// Bob's score for the boundary pair `(a, b)`.
pub fn bob_wins(a: FlipOutcome, b: FlipOutcome) -> (r: u64)
    ensures
        r == bob_pair_score(a, b),
{
    match (a, b) {
        (FlipOutcome::Heads, FlipOutcome::Tails) => 1,
        _ => 0,
    }
}

/// Merges two adjacent single flips into a length-two run, scoring their one
/// boundary pair.
fn combine_single(a: FlipOutcome, b: FlipOutcome) -> (r: RunSummary)
    ensures
        PartialSummary::Run(r)@ == view_combine(SummaryView::Single(a), SummaryView::Single(b)),
{
    RunSummary {
        length: 2,
        first: a,
        last: b,
        alice_points: alice_wins(a, b),
        bob_points: bob_wins(a, b),
    }
}

/// Prepends a single flip to the run that immediately follows it.
fn prepend_sequence(a: FlipOutcome, b: RunSummary) -> (r: RunSummary)
    requires
        view_wf(PartialSummary::Run(b)@),
        b.length < u64::MAX,
    ensures
        PartialSummary::Run(r)@ == view_combine(SummaryView::Single(a), PartialSummary::Run(b)@),
{
    RunSummary {
        length: 1 + b.length,
        first: a,
        last: b.last,
        alice_points: alice_wins(a, b.first) + b.alice_points,
        bob_points: bob_wins(a, b.first) + b.bob_points,
    }
}

/// Appends a single flip to the run that immediately precedes it.
fn postpend_sequence(a: RunSummary, b: FlipOutcome) -> (r: RunSummary)
    requires
        view_wf(PartialSummary::Run(a)@),
        a.length < u64::MAX,
    ensures
        PartialSummary::Run(r)@ == view_combine(PartialSummary::Run(a)@, SummaryView::Single(b)),
{
    RunSummary {
        length: a.length + 1,
        first: a.first,
        last: b,
        alice_points: a.alice_points + alice_wins(a.last, b),
        bob_points: a.bob_points + bob_wins(a.last, b),
    }
}

/// Concatenates two adjacent runs, scoring the boundary pair formed by the
/// left run's last flip and the right run's first flip.
fn combine_sequence(a: RunSummary, b: RunSummary) -> (r: RunSummary)
    requires
        view_wf(PartialSummary::Run(a)@),
        view_wf(PartialSummary::Run(b)@),
        a.length + b.length <= u64::MAX,
    ensures
        PartialSummary::Run(r)@ == view_combine(PartialSummary::Run(a)@, PartialSummary::Run(b)@),
{
    RunSummary {
        length: a.length + b.length,
        first: a.first,
        last: b.last,
        alice_points: a.alice_points + b.alice_points + alice_wins(a.last, b.first),
        bob_points: a.bob_points + b.bob_points + bob_wins(a.last, b.first),
    }
}

/// Merges the summaries of two adjacent ranges, left immediately preceding
/// right. All nine variant combinations are covered; combining with the
/// empty summary returns the other operand unchanged.
pub fn combine(left: PartialSummary, right: PartialSummary) -> (r: PartialSummary)
    requires
        view_wf(left@),
        view_wf(right@),
        view_len(left@) + view_len(right@) <= u64::MAX,
    ensures
        r@ == view_combine(left@, right@),
        view_wf(r@),
{
    match (left, right) {
        (PartialSummary::Empty, b) => b,
        (a, PartialSummary::Empty) => a,
        (PartialSummary::Single(a), PartialSummary::Single(b)) => {
            PartialSummary::Run(combine_single(a, b))
        }
        (PartialSummary::Single(a), PartialSummary::Run(b)) => {
            PartialSummary::Run(prepend_sequence(a, b))
        }
        (PartialSummary::Run(a), PartialSummary::Single(b)) => {
            PartialSummary::Run(postpend_sequence(a, b))
        }
        (PartialSummary::Run(a), PartialSummary::Run(b)) => {
            PartialSummary::Run(combine_sequence(a, b))
        }
    }
}

/// The model summary of a flip sequence, folded left to right.
pub open spec fn summary_of(s: Seq<FlipOutcome>) -> SummaryView
    decreases s.len(),
{
    if s.len() == 0 {
        SummaryView::Empty
    } else {
        view_combine(summary_of(s.drop_last()), SummaryView::Single(s.last()))
    }
}

/// Identity law: the empty summary is a two-sided identity of combine.
pub proof fn lemma_combine_identity(s: SummaryView)
    ensures
        view_combine(SummaryView::Empty, s) == s,
        view_combine(s, SummaryView::Empty) == s,
{
}

/// Associativity law: combine may merge adjacent ranges in any grouping, so
/// the merge tree of a parallel reduction never changes the result.
pub proof fn lemma_combine_assoc(a: SummaryView, b: SummaryView, c: SummaryView)
    ensures
        view_combine(view_combine(a, b), c) == view_combine(a, view_combine(b, c)),
{
}

/// Combining adds the lengths of the two ranges.
pub proof fn lemma_combine_len(a: SummaryView, b: SummaryView)
    ensures
        view_len(view_combine(a, b)) == view_len(a) + view_len(b),
{
}

/// The model determines the summary: two summaries with the same view are
/// structurally equal, so the identity and associativity laws on views carry
/// over to `PartialSummary` values unchanged.
pub proof fn lemma_view_injective(a: PartialSummary, b: PartialSummary)
    requires
        a@ == b@,
    ensures
        a == b,
{
}

/// Concatenation law: summarising two adjacent sub-sequences and combining
/// the results equals summarising their concatenation.
pub proof fn lemma_summary_of_concat(s1: Seq<FlipOutcome>, s2: Seq<FlipOutcome>)
    ensures
        summary_of(s1 + s2) == view_combine(summary_of(s1), summary_of(s2)),
    decreases s2.len(),
{
    if s2.len() == 0 {
        assert(s1 + s2 =~= s1);
    } else {
        let s2d = s2.drop_last();
        assert((s1 + s2).drop_last() =~= s1 + s2d);
        lemma_summary_of_concat(s1, s2d);
        lemma_combine_assoc(summary_of(s1), summary_of(s2d), SummaryView::Single(s2.last()));
        assert((s1 + s2).last() == s2.last());
    }
}

/// Folds a sequence of partial summaries left to right.
pub open spec fn fold_summaries(vs: Seq<SummaryView>) -> SummaryView
    decreases vs.len(),
{
    if vs.len() == 0 {
        SummaryView::Empty
    } else {
        view_combine(fold_summaries(vs.drop_last()), vs.last())
    }
}

/// Partition invariance: however a flip sequence is split into contiguous
/// chunks, summarising each chunk and then combining the chunk summaries in
/// range order yields the summary of the whole sequence.
pub proof fn lemma_partition_invariance(chunks: Seq<Seq<FlipOutcome>>)
    ensures
        fold_summaries(chunks.map_values(|c: Seq<FlipOutcome>| summary_of(c)))
            == summary_of(chunks.flatten()),
    decreases chunks.len(),
{
    let f = |c: Seq<FlipOutcome>| summary_of(c);
    if chunks.len() == 0 {
        assert(chunks.map_values(f).len() == 0);
    } else {
        let cd = chunks.drop_last();
        lemma_partition_invariance(cd);
        cd.lemma_flatten_push(chunks.last());
        assert(cd.push(chunks.last()) =~= chunks);
        lemma_summary_of_concat(cd.flatten(), chunks.last());
        assert(chunks.map_values(f).drop_last() =~= cd.map_values(f));
        assert(chunks.map_values(f).last() == summary_of(chunks.last()));
    }
}

} // verus!
