//! The pricing engines, what each can price, and how each one's
//! discretisation is refined by the convergence ladder.

use vstd::prelude::*;
use vstd::arithmetic::power2::pow2;
use crate::error::Error;

verus! {

/// The six numerical methods.
#[derive(Clone, Copy, Debug, PartialEq, Eq, Hash, Structural)]
pub enum Engine {
    /// Closed-form BSM. European only, exact.
    Analytic,
    /// Fourier-cosine expansion. European only.
    Cos,
    /// Cox-Ross-Rubinstein binomial.
    TreeCrr,
    /// Leisen-Reimer binomial. Preferred lattice: smooth second-order error.
    TreeLr,
    /// Crank-Nicolson with Rannacher startup; PSOR for American.
    FiniteDifference,
    /// Monte Carlo; Longstaff-Schwartz when early exercise is present.
    MonteCarlo,
}

/// Every engine, in id order.
pub open spec fn all_engines() -> Seq<Engine> {
    seq![
        Engine::Analytic,
        Engine::Cos,
        Engine::TreeCrr,
        Engine::TreeLr,
        Engine::FiniteDifference,
        Engine::MonteCarlo,
    ]
}

impl Engine {
    /// Every engine, in id order.
    pub const ALL: [Engine; 6] = [
        Engine::Analytic,
        Engine::Cos,
        Engine::TreeCrr,
        Engine::TreeLr,
        Engine::FiniteDifference,
        Engine::MonteCarlo,
    ];

    /// Stable integer id used across the C ABI.
    pub open spec fn spec_id(self) -> i32 {
        match self {
            Engine::Analytic => 0,
            Engine::Cos => 1,
            Engine::TreeCrr => 2,
            Engine::TreeLr => 3,
            Engine::FiniteDifference => 4,
            Engine::MonteCarlo => 5,
        }
    }

    pub fn id(self) -> (i: i32)
        ensures
            i == self.spec_id(),
    {
        match self {
            Engine::Analytic => 0,
            Engine::Cos => 1,
            Engine::TreeCrr => 2,
            Engine::TreeLr => 3,
            Engine::FiniteDifference => 4,
            Engine::MonteCarlo => 5,
        }
    }

    pub open spec fn spec_name(self) -> &'static str {
        match self {
            Engine::Analytic => "analytic",
            Engine::Cos => "cos",
            Engine::TreeCrr => "tree-crr",
            Engine::TreeLr => "tree-lr",
            Engine::FiniteDifference => "finite-difference",
            Engine::MonteCarlo => "monte-carlo",
        }
    }

    pub fn name(self) -> (s: &'static str)
        ensures
            s == self.spec_name(),
    {
        match self {
            Engine::Analytic => "analytic",
            Engine::Cos => "cos",
            Engine::TreeCrr => "tree-crr",
            Engine::TreeLr => "tree-lr",
            Engine::FiniteDifference => "finite-difference",
            Engine::MonteCarlo => "monte-carlo",
        }
    }

    /// Analytic and COS price European exercise only; the others price all styles.
    pub open spec fn spec_supports(self, early_exercise: bool) -> bool {
        match self {
            Engine::Analytic | Engine::Cos => !early_exercise,
            _ => true,
        }
    }

    /// The name as a NUL-terminated C string, for callers across the C ABI;
    /// static so that a pointer to it outlives any call.
    pub fn c_name(self) -> (s: &'static str)
        ensures
            s@ == self.spec_name()@.push('\0'),
    {
        proof {
            reveal_strlit("analytic");
            reveal_strlit("analytic\0");
            reveal_strlit("cos");
            reveal_strlit("cos\0");
            reveal_strlit("tree-crr");
            reveal_strlit("tree-crr\0");
            reveal_strlit("tree-lr");
            reveal_strlit("tree-lr\0");
            reveal_strlit("finite-difference");
            reveal_strlit("finite-difference\0");
            reveal_strlit("monte-carlo");
            reveal_strlit("monte-carlo\0");
        }
        match self {
            Engine::Analytic => "analytic\0",
            Engine::Cos => "cos\0",
            Engine::TreeCrr => "tree-crr\0",
            Engine::TreeLr => "tree-lr\0",
            Engine::FiniteDifference => "finite-difference\0",
            Engine::MonteCarlo => "monte-carlo\0",
        }
    }

    /// The engine with the given id, if any.
    pub fn from_id(v: i32) -> (e: Option<Engine>)
        ensures
            match e {
                Some(e) => e.spec_id() == v,
                None => !(0 <= v < 6),
            },
    {
        let all = Engine::ALL;
        assert(all@ =~= all_engines());
        let mut i: usize = 0;
        while i < 6
            invariant
                0 <= i <= 6,
                all@ == all_engines(),
                forall|j: int| 0 <= j < i ==> all_engines()[j].spec_id() != v,
            decreases 6 - i,
        {
            if all[i].id() == v {
                return Some(all[i]);
            }
            i = i + 1;
        }
        proof {
            assert forall|w: i32| 0 <= w < 6 implies #[trigger] all_engines()[w as int].spec_id() == w by {}
        }
        None
    }

    /// True when this engine can price a request whose exercise is early
    /// (American or Bermudan) when `early_exercise` holds, European otherwise.
    pub fn supports(self, early_exercise: bool) -> (b: bool)
        ensures
            b == self.spec_supports(early_exercise),
    {
        match self {
            Engine::Analytic | Engine::Cos => !early_exercise,
            _ => true,
        }
    }

    pub open spec fn spec_is_stochastic(self) -> bool {
        self == Engine::MonteCarlo
    }

    /// Deterministic engines give an exact answer for a given config; stochastic
    /// ones carry sampling error.
    pub fn is_stochastic(self) -> (b: bool)
        ensures
            b == self.spec_is_stochastic(),
    {
        matches!(self, Engine::MonteCarlo)
    }

    pub open spec fn spec_best_for(early_exercise: bool) -> Engine {
        if early_exercise {
            Engine::TreeLr
        } else {
            Engine::Analytic
        }
    }

    /// Cheapest engine that can handle the request: analytic where possible,
    /// the Leisen-Reimer lattice otherwise.
    pub fn best_for(early_exercise: bool) -> (e: Engine)
        ensures
            e == Engine::spec_best_for(early_exercise),
    {
        if early_exercise {
            Engine::TreeLr
        } else {
            Engine::Analytic
        }
    }

    /// The error reported when this engine is asked for what it cannot price.
    pub fn unsupported(self, reason: &'static str) -> (err: Error)
        ensures
            err == (Error::Unsupported { engine: self.spec_name(), reason }),
    {
        Error::Unsupported { engine: self.name(), reason }
    }
}

/// The engines of `all_engines()`, in order, that support the given exercise.
pub open spec fn supporting(early_exercise: bool) -> Seq<Engine> {
    all_engines().filter(supports_exercise(early_exercise))
}

/// The predicate "supports this exercise" as a spec closure.
pub open spec fn supports_exercise(early_exercise: bool) -> spec_fn(Engine) -> bool {
    |e: Engine| e.spec_supports(early_exercise)
}

/// Every engine that can price a request with this exercise, in id order.
/// This is the list the cross-validation entry point prices under.
pub fn engines_supporting(early_exercise: bool) -> (v: Vec<Engine>)
    ensures
        v@ == supporting(early_exercise),
{
    let all = Engine::ALL;
    assert(all@ =~= all_engines());
    let ghost pred = supports_exercise(early_exercise);
    let mut v: Vec<Engine> = Vec::new();
    let mut i: usize = 0;
    while i < 6
        invariant
            0 <= i <= 6,
            all@ == all_engines(),
            pred == supports_exercise(early_exercise),
            v@ == all_engines().take(i as int).filter(pred),
        decreases 6 - i,
    {
        let e = all[i];
        let ghost before = all_engines().take(i as int);
        proof {
            assert(all_engines().take(i as int + 1).drop_last() =~= before);
            assert(all_engines().take(i as int + 1).last() == e);
            reveal(Seq::filter);
            assert(all_engines().take(i as int + 1).filter(pred) == (if pred(e) {
                before.filter(pred).push(e)
            } else {
                before.filter(pred)
            }));
        }
        if e.supports(early_exercise) {
            v.push(e);
        }
        i = i + 1;
    }
    proof {
        assert(all_engines().take(6) =~= all_engines());
    }
    v
}

/// Ids identify engines: each engine's id lies in `[0, 6)` and is its position
/// in `all_engines()`, so two engines with one id are the same engine.
pub proof fn lemma_engine_ids(a: Engine, b: Engine)
    ensures
        0 <= a.spec_id() < 6,
        all_engines()[a.spec_id() as int] == a,
        a.spec_id() == b.spec_id() ==> a == b,
{
}

/// The engine chosen when the caller names none supports the request, and is
/// among the engines the cross-validation prices under.
pub proof fn lemma_best_engine_supports(early_exercise: bool)
    ensures
        Engine::spec_best_for(early_exercise).spec_supports(early_exercise),
        supporting(early_exercise).contains(Engine::spec_best_for(early_exercise)),
{
    lemma_supporting_members(early_exercise, Engine::spec_best_for(early_exercise));
}

/// The cross-validation list holds exactly the engines that support the
/// exercise; for European exercise that is every engine, and for early
/// exercise the analytic and COS engines are left out.
pub proof fn lemma_supporting_members(early_exercise: bool, e: Engine)
    ensures
        supporting(early_exercise).contains(e) <==> e.spec_supports(early_exercise),
        supporting(false) == all_engines(),
        supporting(true) == seq![
            Engine::TreeCrr,
            Engine::TreeLr,
            Engine::FiniteDifference,
            Engine::MonteCarlo,
        ],
{
    reveal_with_fuel(Seq::filter, 7);
    assert(supporting(false) =~= all_engines());
    assert(supporting(true) =~= seq![
        Engine::TreeCrr,
        Engine::TreeLr,
        Engine::FiniteDifference,
        Engine::MonteCarlo,
    ]);
    if e.spec_supports(early_exercise) {
        lemma_engine_ids(e, e);
        if early_exercise {
            assert(supporting(true)[e.spec_id() - 2] == e);
        } else {
            assert(supporting(false)[e.spec_id() as int] == e);
        }
    }
}

} // verus!
