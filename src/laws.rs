//! What holds of the best candidate across any run of measurements.
use vstd::prelude::*;
use crate::engine::{best_after, improved, BestKnown, SCALE_ONE};
use crate::media::scaled_side;

verus! {

/// Measuring one more candidate never leaves the best one further from the
/// target, and keeps it well formed.
pub proof fn lemma_improved_no_worse(best: BestKnown, scale: i64, size: u64, target: u64)
    requires
        best.wf(target),
    ensures
        improved(best, scale, size, target).wf(target),
        best.deficit is Some ==> improved(best, scale, size, target).deficit is Some
            && improved(best, scale, size, target).deficit->0 <= best.deficit->0,
        size <= target ==> improved(best, scale, size, target).deficit is Some,
{
}

/// The best candidate stays well formed over any run of measurements.
pub proof fn lemma_best_after_wf(best: BestKnown, cands: Seq<(i64, u64)>, target: u64)
    requires
        best.wf(target),
    ensures
        best_after(best, cands, target).wf(target),
    decreases cands.len(),
{
    if cands.len() > 0 {
        lemma_best_after_wf(best, cands.drop_last(), target);
        lemma_improved_no_worse(
            best_after(best, cands.drop_last(), target),
            cands.last().0,
            cands.last().1,
            target,
        );
    }
}

/// The best candidate's shortfall against the target never grows as
/// measurements go on: after the first `k` candidates and after all of them,
/// once a candidate fits, the later shortfall is at most the earlier one.
pub proof fn lemma_deficit_never_grows(
    best: BestKnown,
    cands: Seq<(i64, u64)>,
    target: u64,
    k: int,
)
    requires
        best.wf(target),
        0 <= k <= cands.len(),
    ensures
        best_after(best, cands.take(k), target).deficit is Some ==> {
            &&& best_after(best, cands, target).deficit is Some
            &&& best_after(best, cands, target).deficit->0 <= best_after(
                best,
                cands.take(k),
                target,
            ).deficit->0
        },
    decreases cands.len(),
{
    if k == cands.len() {
        assert(cands.take(k) =~= cands);
    } else {
        let rest = cands.drop_last();
        assert(rest.take(k) =~= cands.take(k));
        lemma_deficit_never_grows(best, rest, target, k);
        lemma_best_after_wf(best, rest, target);
        lemma_improved_no_worse(best_after(best, rest, target), cands.last().0, cands.last().1, target);
    }
}

/// Once any candidate has come in at or under the target, the best candidate
/// is one that does too.
pub proof fn lemma_fitting_candidate_kept(
    best: BestKnown,
    cands: Seq<(i64, u64)>,
    target: u64,
    j: int,
)
    requires
        best.wf(target),
        0 <= j < cands.len(),
        cands[j].1 <= target,
    ensures
        best_after(best, cands, target).deficit is Some,
        best_after(best, cands, target).size <= target,
    decreases cands.len(),
{
    let rest = cands.drop_last();
    lemma_best_after_wf(best, rest, target);
    lemma_best_after_wf(best, cands, target);
    if j < cands.len() - 1 {
        lemma_fitting_candidate_kept(best, rest, target, j);
    }
    lemma_improved_no_worse(best_after(best, rest, target), cands.last().0, cands.last().1, target);
}

/// A scale of one or more never shrinks a side; a scale below one shrinks
/// every side of two pixels or more.
pub proof fn lemma_scaled_side_order(len: u32, scale: int)
    requires
        0 <= scale,
    ensures
        scale >= SCALE_ONE ==> scaled_side(len, scale) >= len,
        scale < SCALE_ONE && len >= 2 ==> scaled_side(len, scale) < len,
{
    let one = SCALE_ONE as int;
    let l = len as int;
    if scale >= one {
        assert(l * scale / one >= l) by (nonlinear_arith)
            requires scale >= one, l >= 0, one > 0;
    } else if len >= 2 {
        assert(l * scale / one < l) by (nonlinear_arith)
            requires 0 <= scale < one, l >= 2, one > 0;
    }
}

} // verus!
