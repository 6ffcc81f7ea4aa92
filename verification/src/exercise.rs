//! Exercise policy as a per-step boolean mask over a uniform time grid, which
//! is why European, American and Bermudan exercise share one code path in
//! every engine downstream.

use vstd::prelude::*;
use crate::abi::OptStyle;

verus! {

/// `x` clamped into `[lo, hi]`.
pub open spec fn clamp_index(x: usize, lo: usize, hi: usize) -> usize {
    if x < lo {
        lo
    } else if x > hi {
        hi
    } else {
        x
    }
}

/// Some Bermudan date snaps, after clamping into `[1, steps]`, onto step `i`.
pub open spec fn snaps_onto(snapped: Seq<usize>, steps: usize, i: int) -> bool {
    exists|j: int| 0 <= j < snapped.len() && clamp_index(#[trigger] snapped[j], 1, steps) == i
}

/// Whether step `i` of the grid is an exercise opportunity. European exercise
/// marks expiry; American exercise marks every step after today; Bermudan
/// exercise marks expiry and the steps its dates snap onto.
pub open spec fn exercisable(style: OptStyle, steps: usize, snapped: Seq<usize>, i: int) -> bool {
    match style {
        OptStyle::European => i == steps,
        OptStyle::American => 1 <= i,
        OptStyle::Bermudan => i == steps || snaps_onto(snapped, steps, i),
    }
}

/// Mask of length `steps + 1` over a uniform grid on `[0, expiry]`.
///
/// `snapped` holds, for each Bermudan date in `(0, expiry]`, the index of the
/// grid step nearest to it; each is clamped into `[1, steps]` so that no date
/// snaps onto today. It is read only for Bermudan exercise.
pub fn step_mask(style: OptStyle, steps: usize, snapped: &Vec<usize>) -> (mask: Vec<bool>)
    requires
        steps < usize::MAX,
        style == OptStyle::Bermudan && snapped.len() > 0 ==> 1 <= steps,
    ensures
        mask.len() == steps + 1,
        forall|i: int| 0 <= i <= steps ==> #[trigger] mask[i] == exercisable(style, steps, snapped@, i),
        style == OptStyle::Bermudan ==> forall|j: int|
            0 <= j < snapped.len() ==> mask[if #[trigger] snapped[j] < 1 {
                1int
            } else if snapped[j] > steps {
                steps as int
            } else {
                snapped[j] as int
            }],
        style != OptStyle::American ==> mask[steps as int],
        style == OptStyle::American ==> forall|i: int| 1 <= i <= steps ==> #[trigger] mask[i],
        style == OptStyle::American ==> !mask[0],
        style == OptStyle::European ==> forall|i: int| 0 <= i < steps ==> !#[trigger] mask[i],
{
    proof {
        if style == OptStyle::Bermudan {
            assert forall|j: int| 0 <= j < snapped.len() implies exercisable(
                style,
                steps,
                snapped@,
                clamp_index(#[trigger] snapped@[j], 1, steps) as int,
            ) by {
                lemma_bermudan_dates_exercisable(steps, snapped@, j);
            }
        }
    }
    let mut mask: Vec<bool> = Vec::new();
    let mut i: usize = 0;
    while i <= steps
        invariant
            i <= steps + 1,
            steps < usize::MAX,
            mask.len() == i,
            forall|k: int| 0 <= k < i ==> #[trigger] mask[k] == false,
        decreases steps + 1 - i,
    {
        mask.push(false);
        i = i + 1;
    }
    match style {
        OptStyle::European => {
            mask.set(steps, true);
        },
        OptStyle::American => {
            let mut i: usize = 1;
            while i <= steps
                invariant
                    1 <= i <= steps + 1,
                    steps < usize::MAX,
                    mask.len() == steps + 1,
                    forall|k: int| 0 <= k <= steps ==> #[trigger] mask[k] == (1 <= k < i),
                decreases steps + 1 - i,
            {
                mask.set(i, true);
                i = i + 1;
            }
        },
        OptStyle::Bermudan => {
            let mut j: usize = 0;
            while j < snapped.len()
                invariant
                    j <= snapped.len(),
                    snapped.len() > 0 ==> 1 <= steps,
                    mask.len() == steps + 1,
                    forall|k: int|
                        0 <= k <= steps ==> #[trigger] mask[k] == snaps_onto(
                            snapped@.take(j as int),
                            steps,
                            k,
                        ),
                decreases snapped.len() - j,
            {
                let raw = snapped[j];
                let c = if raw < 1 {
                    1
                } else if raw > steps {
                    steps
                } else {
                    raw
                };
                mask.set(c, true);
                proof {
                    let before = snapped@.take(j as int);
                    let after = snapped@.take(j as int + 1);
                    assert forall|k: int| 0 <= k <= steps implies #[trigger] mask[k] == snaps_onto(
                        after,
                        steps,
                        k,
                    ) by {
                        if k == c {
                            assert(after[j as int] == raw);
                        } else {
                            if snaps_onto(after, steps, k) {
                                let w = choose|w: int|
                                    0 <= w < after.len() && clamp_index(
                                        #[trigger] after[w],
                                        1,
                                        steps,
                                    ) == k;
                                assert(before[w] == after[w]);
                            }
                            if snaps_onto(before, steps, k) {
                                let w = choose|w: int|
                                    0 <= w < before.len() && clamp_index(
                                        #[trigger] before[w],
                                        1,
                                        steps,
                                    ) == k;
                                assert(before[w] == after[w]);
                            }
                        }
                    }
                }
                j = j + 1;
            }
            assert(snapped@.take(snapped.len() as int) =~= snapped@);
            mask.set(steps, true);
        },
    }
    mask
}

/// Expiry is always an exercise step and today never is (on a grid with at
/// least one step); the exercise steps of a Bermudan schedule lie between those
/// of the European and of the American option on the same grid.
pub proof fn lemma_exercise_steps_nested(steps: usize, snapped: Seq<usize>, i: int)
    requires
        1 <= steps,
        0 <= i <= steps,
    ensures
        exercisable(OptStyle::European, steps, snapped, steps as int),
        exercisable(OptStyle::American, steps, snapped, steps as int),
        exercisable(OptStyle::Bermudan, steps, snapped, steps as int),
        !exercisable(OptStyle::European, steps, snapped, 0),
        !exercisable(OptStyle::American, steps, snapped, 0),
        !exercisable(OptStyle::Bermudan, steps, snapped, 0),
        exercisable(OptStyle::European, steps, snapped, i) ==> exercisable(
            OptStyle::Bermudan,
            steps,
            snapped,
            i,
        ),
        exercisable(OptStyle::Bermudan, steps, snapped, i) ==> exercisable(
            OptStyle::American,
            steps,
            snapped,
            i,
        ),
{
    if snaps_onto(snapped, steps, 0) {
        let j = choose|j: int| 0 <= j < snapped.len() && clamp_index(#[trigger] snapped[j], 1, steps) == 0;
        assert(clamp_index(snapped[j], 1, steps) >= 1);
    }
    if snaps_onto(snapped, steps, i) {
        let j = choose|j: int| 0 <= j < snapped.len() && clamp_index(#[trigger] snapped[j], 1, steps) == i;
        assert(clamp_index(snapped[j], 1, steps) >= 1);
    }
}

/// Today is never an exercise step, on any grid, except that a grid of zero
/// steps has today as its expiry, which European and Bermudan exercise mark.
pub proof fn lemma_today_not_exercisable(style: OptStyle, steps: usize, snapped: Seq<usize>)
    ensures
        exercisable(style, steps, snapped, 0) <==> (steps == 0 && style != OptStyle::American),
{
    if snaps_onto(snapped, steps, 0) {
        let j = choose|j: int| 0 <= j < snapped.len() && clamp_index(#[trigger] snapped[j], 1, steps) == 0;
        assert(clamp_index(snapped[j], 1, steps) >= 1 || steps == 0);
    }
}

/// Every Bermudan date is an exercise step: the grid step it snaps onto
/// (its index clamped into `[1, steps]`) is exercisable, whichever date of
/// the schedule it is.
pub proof fn lemma_bermudan_dates_exercisable(steps: usize, snapped: Seq<usize>, j: int)
    requires
        0 <= j < snapped.len(),
    ensures
        exercisable(
            OptStyle::Bermudan,
            steps,
            snapped,
            if snapped[j] < 1 {
                1int
            } else if snapped[j] > steps {
                steps as int
            } else {
                snapped[j] as int
            },
        ),
{
    assert(clamp_index(snapped[j], 1, steps) == (if snapped[j] < 1 {
        1int
    } else if snapped[j] > steps {
        steps as int
    } else {
        snapped[j] as int
    }));
}

} // verus!
