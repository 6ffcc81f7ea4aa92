//! Decisions of the convergence ladder: how far each engine's discretisation is
//! scaled at each refinement level, and which engines may be extrapolated.
//! Doubling the discretisation is what makes Richardson extrapolation valid.

use vstd::prelude::*;
use vstd::arithmetic::power2::{pow2, lemma_pow2_pos};
use crate::engine::Engine;

verus! {

/// The discretisation knobs of every engine: the part of the configuration
/// that refinement scales.
#[derive(Clone, Copy, Debug, PartialEq, Eq, Structural)]
pub struct Resolution {
    pub tree_steps: usize,
    pub fd_space_steps: usize,
    pub fd_time_steps: usize,
    pub mc_paths: usize,
    pub cos_terms: usize,
}

/// Order of the smooth error of an engine, when Richardson extrapolation is
/// sound for it: second order for Leisen-Reimer and Crank-Nicolson. CRR
/// oscillates, COS is spectral and MC is stochastic.
pub open spec fn spec_convergence_order(engine: Engine) -> Option<u32> {
    match engine {
        Engine::TreeLr | Engine::FiniteDifference => Some(2u32),
        _ => None,
    }
}

pub fn convergence_order(engine: Engine) -> (o: Option<u32>)
    ensures
        o == spec_convergence_order(engine),
{
    match engine {
        Engine::TreeLr | Engine::FiniteDifference => Some(2),
        _ => None,
    }
}

/// The resolution at refinement `level`: the engine's knob times `2^level`
/// (Monte Carlo paths times `4^level`, since its error is O(1/sqrt(N))).
/// `None` for the analytic engine, which has nothing to refine.
pub open spec fn refined(engine: Engine, base: Resolution, level: nat) -> Option<Resolution> {
    let f = pow2(level);
    match engine {
        Engine::Analytic => None,
        Engine::Cos => Some(Resolution { cos_terms: (base.cos_terms * f) as usize, ..base }),
        Engine::TreeCrr | Engine::TreeLr => Some(
            Resolution { tree_steps: (base.tree_steps * f) as usize, ..base },
        ),
        Engine::FiniteDifference => Some(
            Resolution {
                fd_space_steps: (base.fd_space_steps * f) as usize,
                fd_time_steps: (base.fd_time_steps * f) as usize,
                ..base
            },
        ),
        Engine::MonteCarlo => Some(
            Resolution { mc_paths: (base.mc_paths * f * f) as usize, ..base },
        ),
    }
}

/// `2^level` and the scaled knobs of `engine` fit in a `usize`.
pub open spec fn refine_fits(engine: Engine, base: Resolution, level: nat) -> bool {
    let f = pow2(level);
    &&& level < usize::BITS
    &&& match engine {
        Engine::Analytic => true,
        Engine::Cos => base.cos_terms * f <= usize::MAX,
        Engine::TreeCrr | Engine::TreeLr => base.tree_steps * f <= usize::MAX,
        Engine::FiniteDifference => base.fd_space_steps * f <= usize::MAX && base.fd_time_steps
            * f <= usize::MAX,
        Engine::MonteCarlo => base.mc_paths * f * f <= usize::MAX,
    }
}

/// Whether `refine` may be called for this level: `2^level` and the scaled
/// knobs of `engine` fit in a `usize`.
pub fn fits_refinement(engine: Engine, base: &Resolution, level: usize) -> (b: bool)
    ensures
        b == refine_fits(engine, *base, level as nat),
{
    if level >= usize::BITS as usize {
        return false;
    }
    proof {
        vstd::bits::lemma_usize_pow2_no_overflow(level as nat);
        vstd::bits::lemma_usize_shl_is_mul(1, level);
    }
    let f: usize = 1usize << level;
    assert(f == pow2(level as nat));
    match engine {
        Engine::Analytic => true,
        Engine::Cos => base.cos_terms.checked_mul(f).is_some(),
        Engine::TreeCrr | Engine::TreeLr => base.tree_steps.checked_mul(f).is_some(),
        Engine::FiniteDifference => base.fd_space_steps.checked_mul(f).is_some()
            && base.fd_time_steps.checked_mul(f).is_some(),
        Engine::MonteCarlo => match base.mc_paths.checked_mul(f) {
            Some(p) => p.checked_mul(f).is_some(),
            None => {
                proof {
                    lemma_pow2_pos(level as nat);
                    assert(base.mc_paths * f <= base.mc_paths * f * f) by (nonlinear_arith)
                        requires
                            f >= 1,
                    ;
                }
                false
            },
        },
    }
}

/// Scale the engine's knob for refinement `level`.
pub fn refine(engine: Engine, base: &Resolution, level: usize) -> (r: Option<Resolution>)
    requires
        refine_fits(engine, *base, level as nat),
    ensures
        r == refined(engine, *base, level as nat),
{
    proof {
        vstd::bits::lemma_usize_pow2_no_overflow(level as nat);
        vstd::bits::lemma_usize_shl_is_mul(1, level);
    }
    let f: usize = 1usize << level;
    assert(f == pow2(level as nat));
    let mut out = *base;
    match engine {
        Engine::Analytic => None,
        Engine::Cos => {
            out.cos_terms = base.cos_terms * f;
            Some(out)
        },
        Engine::TreeCrr | Engine::TreeLr => {
            out.tree_steps = base.tree_steps * f;
            Some(out)
        },
        Engine::FiniteDifference => {
            out.fd_space_steps = base.fd_space_steps * f;
            out.fd_time_steps = base.fd_time_steps * f;
            Some(out)
        },
        Engine::MonteCarlo => {
            proof {
                lemma_pow2_pos(level as nat);
                assert(base.mc_paths * f <= base.mc_paths * f * f) by (nonlinear_arith)
                    requires
                        f >= 1,
                ;
            }
            out.mc_paths = base.mc_paths * f * f;
            Some(out)
        },
    }
}

/// What the convergence ladder does next.
#[derive(Clone, Copy, Debug, PartialEq, Eq, Structural)]
pub enum LadderStep {
    /// Price at refinement `level` and report whether it agreed with the
    /// previous level within tolerance.
    Price { level: usize },
    /// Stop with the latest price. `extrapolate` is the order of the Richardson
    /// extrapolation to apply to the final pair, if any.
    Converged { refinements: usize, extrapolate: Option<u32> },
    /// The refinement budget is spent.
    NotConverged,
}

/// The ladder's step after pricing at `level`, given whether that price agreed
/// with the previous one within tolerance (ignored at level 0, which has no
/// predecessor). An engine with nothing to refine is priced once and done.
pub open spec fn spec_ladder_after(
    engine: Engine,
    max_refinements: usize,
    richardson: bool,
    level: usize,
    converged: bool,
) -> LadderStep {
    if engine == Engine::Analytic {
        LadderStep::Converged { refinements: 0, extrapolate: None }
    } else if level > 0 && converged {
        LadderStep::Converged {
            refinements: level,
            extrapolate: if richardson {
                spec_convergence_order(engine)
            } else {
                None
            },
        }
    } else if level < max_refinements {
        LadderStep::Price { level: (level + 1) as usize }
    } else {
        LadderStep::NotConverged
    }
}

/// Decide the ladder's next step once the price at `level` is known.
pub fn ladder_after(
    engine: Engine,
    max_refinements: usize,
    richardson: bool,
    level: usize,
    converged: bool,
) -> (s: LadderStep)
    ensures
        s == spec_ladder_after(engine, max_refinements, richardson, level, converged),
        engine != Engine::Analytic && 1 <= level && converged ==> (s matches LadderStep::Converged {
            refinements,
            extrapolate,
        } && refinements == level && extrapolate == (if richardson && (engine == Engine::TreeLr
            || engine == Engine::FiniteDifference) {
            Some(2u32)
        } else {
            None
        })),
{
    if matches!(engine, Engine::Analytic) {
        LadderStep::Converged { refinements: 0, extrapolate: None }
    } else if level > 0 && converged {
        let extrapolate = if richardson {
            convergence_order(engine)
        } else {
            None
        };
        LadderStep::Converged { refinements: level, extrapolate }
    } else if level < max_refinements {
        LadderStep::Price { level: level + 1 }
    } else {
        LadderStep::NotConverged
    }
}

/// Refinement leaves the configured resolution unchanged at level 0, gives
/// `None` exactly for the analytic engine, and doubles the engine's knob from
/// one level to the next (quadruples Monte Carlo paths), which is what makes
/// Richardson extrapolation of a consecutive pair valid.
pub proof fn lemma_refinement_doubles(engine: Engine, base: Resolution, level: nat)
    requires
        refine_fits(engine, base, level + 1),
    ensures
        refined(engine, base, 0) == (if engine == Engine::Analytic {
            None
        } else {
            Some(base)
        }),
        refined(engine, base, level) is None <==> engine == Engine::Analytic,
        engine != Engine::Analytic ==> {
            let coarse = refined(engine, base, level)->0;
            let fine = refined(engine, base, level + 1)->0;
            match engine {
                Engine::Cos => fine.cos_terms == 2 * coarse.cos_terms,
                Engine::TreeCrr | Engine::TreeLr => fine.tree_steps == 2 * coarse.tree_steps,
                Engine::FiniteDifference => fine.fd_space_steps == 2 * coarse.fd_space_steps
                    && fine.fd_time_steps == 2 * coarse.fd_time_steps,
                _ => fine.mc_paths == 4 * coarse.mc_paths,
            }
        },
{
    let f = pow2(level);
    let g = pow2(level + 1);
    vstd::arithmetic::power2::lemma2_to64();
    vstd::arithmetic::power2::lemma_pow2_unfold(level + 1);
    assert(g == 2 * f);
    lemma_pow2_pos(level);
    assert(base.cos_terms * g == 2 * (base.cos_terms * f)) by (nonlinear_arith)
        requires
            g == 2 * f,
    ;
    assert(base.tree_steps * g == 2 * (base.tree_steps * f)) by (nonlinear_arith)
        requires
            g == 2 * f,
    ;
    assert(base.fd_space_steps * g == 2 * (base.fd_space_steps * f)) by (nonlinear_arith)
        requires
            g == 2 * f,
    ;
    assert(base.fd_time_steps * g == 2 * (base.fd_time_steps * f)) by (nonlinear_arith)
        requires
            g == 2 * f,
    ;
    assert(base.mc_paths * g * g == 4 * (base.mc_paths * f * f)) by (nonlinear_arith)
        requires
            g == 2 * f,
    ;
    assert(base.cos_terms * f <= base.cos_terms * g) by (nonlinear_arith)
        requires
            g == 2 * f,
            f > 0,
    ;
    assert(base.tree_steps * f <= base.tree_steps * g) by (nonlinear_arith)
        requires
            g == 2 * f,
            f > 0,
    ;
    assert(base.fd_space_steps * f <= base.fd_space_steps * g) by (nonlinear_arith)
        requires
            g == 2 * f,
            f > 0,
    ;
    assert(base.fd_time_steps * f <= base.fd_time_steps * g) by (nonlinear_arith)
        requires
            g == 2 * f,
            f > 0,
    ;
    assert(base.mc_paths * f * f <= base.mc_paths * g * g) by (nonlinear_arith)
        requires
            g == 2 * f,
            f > 0,
    ;
    assert(refined(engine, base, 0) =~= (if engine == Engine::Analytic {
        None
    } else {
        Some(base)
    }));
}

/// Richardson extrapolation is only ever applied to a deterministic engine
/// whose discretisation the ladder refines.
pub proof fn lemma_extrapolation_needs_refinable_deterministic_engine(engine: Engine)
    ensures
        spec_convergence_order(engine) is Some ==> !engine.spec_is_stochastic() && engine
            != Engine::Analytic,
{
}

/// The ladder climbs one level at a time and never past the refinement budget;
/// it extrapolates only when asked to and only engines with a convergence
/// order; a refinable engine only stops as converged after at least one
/// refinement, and the exact engine stops after its single price.
pub proof fn lemma_ladder_bounded(
    engine: Engine,
    max_refinements: usize,
    richardson: bool,
    level: usize,
    converged: bool,
)
    ensures
        ({
            let s = spec_ladder_after(engine, max_refinements, richardson, level, converged);
            &&& s matches LadderStep::Price { level: next } ==> next == level + 1 && next
                <= max_refinements && engine != Engine::Analytic
            &&& s matches LadderStep::Converged { refinements, extrapolate } ==> {
                &&& extrapolate is Some ==> richardson && extrapolate == spec_convergence_order(
                    engine,
                )
                &&& engine != Engine::Analytic ==> refinements == level && 1 <= refinements
                &&& engine == Engine::Analytic ==> refinements == 0 && extrapolate is None
            }
            &&& s is NotConverged ==> level >= max_refinements && engine != Engine::Analytic
        }),
{
}

/// Agreement within tolerance always stops the ladder: for every refinable
/// engine (Monte Carlo included, whose agreement is its standard error), a
/// level at or above 1 whose price agreed stops as converged after exactly
/// that many refinements. When Richardson extrapolation is requested the
/// smooth second-order engines (Leisen-Reimer and Crank-Nicolson) are
/// extrapolated with order 2 and no other engine is; when it is not
/// requested nothing is.
pub proof fn lemma_agreement_stops_ladder(
    engine: Engine,
    max_refinements: usize,
    richardson: bool,
    level: usize,
)
    requires
        engine != Engine::Analytic,
        1 <= level,
    ensures
        spec_ladder_after(engine, max_refinements, richardson, level, true) matches LadderStep::Converged {
            refinements,
            extrapolate,
        } && refinements == level && (richardson && (engine == Engine::TreeLr || engine
            == Engine::FiniteDifference) ==> extrapolate == Some(2u32)) && (!(richardson && (engine
            == Engine::TreeLr || engine == Engine::FiniteDifference)) ==> extrapolate is None),
{
}

/// Disagreement never stops a refinable engine as converged: the ladder
/// prices the next level while the budget lasts and gives up after it.
pub proof fn lemma_disagreement_continues_ladder(
    engine: Engine,
    max_refinements: usize,
    richardson: bool,
    level: usize,
)
    requires
        engine != Engine::Analytic,
    ensures
        level < max_refinements ==> spec_ladder_after(
            engine,
            max_refinements,
            richardson,
            level,
            false,
        ) == (LadderStep::Price { level: (level + 1) as usize }),
        level >= max_refinements ==> spec_ladder_after(
            engine,
            max_refinements,
            richardson,
            level,
            false,
        ) == LadderStep::NotConverged,
{
}

} // verus!
