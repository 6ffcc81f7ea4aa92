//! Step-count rules of the binomial lattice engine.

use vstd::prelude::*;
use crate::error::Error;

verus! {

/// Lattice resolution.
#[derive(Clone, Copy, Debug)]
pub struct TreeConfig {
    pub steps: usize,
}

impl Default for TreeConfig {
    fn default() -> (c: Self)
        ensures
            c.steps == 801,
    {
        TreeConfig { steps: 801 }
    }
}

impl TreeConfig {
    /// The lattice accepts this resolution.
    pub open spec fn spec_valid(&self) -> bool {
        self.steps >= 3
    }

    /// The lattice needs nodes at steps 1 and 2 for its greeks, so at least 3
    /// steps.
    pub fn check(&self) -> (r: Result<(), Error>)
        ensures
            r is Ok <==> self.spec_valid(),
            r == (if self.steps >= 3 {
                Ok::<(), Error>(())
            } else {
                Err::<(), Error>(Error::Domain("tree needs at least 3 steps"))
            }),
    {
        if self.steps < 3 {
            return Err(Error::Domain("tree needs at least 3 steps"));
        }
        Ok(())
    }
}

/// Cox-Ross-Rubinstein parameterisation. Works with any step count.
#[derive(Clone, Copy, Debug, Default)]
pub struct Crr;

/// Leisen-Reimer parameterisation (Peizer-Pratt inversion). Needs odd step
/// counts.
#[derive(Clone, Copy, Debug, Default)]
pub struct LeisenReimer;

impl Crr {
    /// CRR uses the requested step count as it is.
    pub fn adjust_steps(&self, steps: usize) -> (n: usize)
        ensures
            n == steps,
    {
        steps
    }
}

/// The smallest odd number at least `steps`.
pub open spec fn odd_steps(steps: usize) -> usize {
    if steps % 2 == 0 {
        (steps + 1) as usize
    } else {
        steps
    }
}

impl LeisenReimer {
    /// An even step count is raised by one so that the tree has a middle node.
    pub fn adjust_steps(&self, steps: usize) -> (n: usize)
        ensures
            n == odd_steps(steps),
    {
        if steps % 2 == 0 {
            steps + 1
        } else {
            steps
        }
    }
}

/// The Leisen-Reimer step count is odd, at least the request, at most one
/// more, and adjusting it again changes nothing.
pub proof fn lemma_odd_steps(steps: usize)
    ensures
        odd_steps(steps) % 2 == 1,
        steps <= odd_steps(steps) <= steps + 1,
        odd_steps(odd_steps(steps)) == odd_steps(steps),
        steps % 2 == 1 ==> odd_steps(steps) == steps,
{
}

} // verus!
