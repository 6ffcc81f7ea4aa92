//! Flat error enum. Every variant maps to a stable integer for the C ABI, so
//! variants are only ever appended.

use vstd::prelude::*;

verus! {

/// Failure of a pricing request.
///
/// The two figures of `NotConverged` are carried as IEEE-754 bit patterns
/// (`f64::to_bits`), which keep them exactly.
#[derive(Clone, Debug)]
pub enum Error {
    Domain(&'static str),
    NoSolution(&'static str),
    /// Engine cannot handle this exercise style or payoff.
    Unsupported { engine: &'static str, reason: &'static str },
    /// Convergence ladder exhausted its refinement budget.
    NotConverged { last_bits: u64, delta_bits: u64 },
}

impl Error {
    /// Stable integer of each variant.
    pub open spec fn spec_code(&self) -> i32 {
        match self {
            Error::Domain(_) => 1,
            Error::NoSolution(_) => 2,
            Error::Unsupported { .. } => 3,
            Error::NotConverged { .. } => 4,
        }
    }

    pub fn code(&self) -> (c: i32)
        ensures
            c == self.spec_code(),
    {
        match self {
            Error::Domain(_) => 1,
            Error::NoSolution(_) => 2,
            Error::Unsupported { .. } => 3,
            Error::NotConverged { .. } => 4,
        }
    }
}

} // verus!
