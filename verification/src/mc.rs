//! Configuration of the Monte Carlo engine.

use vstd::prelude::*;
use crate::error::Error;

verus! {

/// Monte Carlo knobs.
#[derive(Clone, Copy, Debug)]
pub struct McConfig {
    pub paths: usize,
    pub steps: usize,
    pub seed: u64,
    pub antithetic: bool,
    /// Uses the analytic European price as a control. Ignored for early exercise.
    pub control_variate: bool,
    pub basis_terms: usize,
}

impl Default for McConfig {
    fn default() -> (c: Self)
        ensures
            c.paths == 200_000,
            c.steps == 50,
            c.seed == 0xC0FF_EE00,
            c.antithetic,
            c.control_variate,
            c.basis_terms == 3,
    {
        McConfig {
            paths: 200_000,
            steps: 50,
            seed: 0xC0FF_EE00,
            antithetic: true,
            control_variate: true,
            basis_terms: 3,
        }
    }
}

impl McConfig {
    /// The Monte Carlo engine accepts this path count.
    pub open spec fn spec_valid(&self) -> bool {
        self.paths >= 2
    }

    /// A standard error needs at least 2 paths.
    pub fn check(&self) -> (r: Result<(), Error>)
        ensures
            r is Ok <==> self.spec_valid(),
            r == (if self.paths >= 2 {
                Ok::<(), Error>(())
            } else {
                Err::<(), Error>(Error::Domain("need at least 2 paths"))
            }),
    {
        if self.paths < 2 {
            return Err(Error::Domain("need at least 2 paths"));
        }
        Ok(())
    }

    /// Number of Laguerre basis functions the Longstaff-Schwartz regression
    /// uses: the configured count clamped into `[1, 4]`.
    pub fn basis_count(&self) -> (k: usize)
        ensures
            k == (if self.basis_terms < 1 {
                1
            } else if self.basis_terms > 4 {
                4
            } else {
                self.basis_terms
            }),
            1 <= k <= 4,
    {
        if self.basis_terms < 1 {
            1
        } else if self.basis_terms > 4 {
            4
        } else {
            self.basis_terms
        }
    }
}

} // verus!
