use optrs::engine::{engines_supporting, Engine};
use optrs::error::Error;

#[test]
fn support_matrix_rejects_early_exercise() {
    // An American put is an early-exercise request.
    let early = true;
    assert!(!Engine::Analytic.supports(early));
    assert!(!Engine::Cos.supports(early));
    assert!(Engine::TreeLr.supports(early));
    assert!(Engine::FiniteDifference.supports(early));
    assert!(Engine::MonteCarlo.supports(early));
    let err = Engine::Analytic.unsupported("early exercise not implemented for this engine");
    assert_eq!(err.code(), 3);
}

#[test]
fn every_engine_supports_european() {
    for e in Engine::ALL {
        assert!(e.supports(false));
    }
}

#[test]
fn engine_names() {
    let names: Vec<&str> = Engine::ALL.iter().map(|e| e.name()).collect();
    assert_eq!(
        names,
        vec!["analytic", "cos", "tree-crr", "tree-lr", "finite-difference", "monte-carlo"]
    );
}

#[test]
fn ids_are_contiguous() {
    for (i, e) in Engine::ALL.iter().enumerate() {
        assert_eq!(e.id(), i as i32);
    }
}

#[test]
fn only_monte_carlo_is_stochastic() {
    for e in Engine::ALL {
        assert_eq!(e.is_stochastic(), e == Engine::MonteCarlo);
    }
}

#[test]
fn best_engine_is_analytic_for_european_and_lattice_otherwise() {
    assert_eq!(Engine::best_for(false), Engine::Analytic);
    assert_eq!(Engine::best_for(true), Engine::TreeLr);
    assert!(Engine::best_for(true).supports(true));
}

#[test]
fn cross_validation_list() {
    assert_eq!(engines_supporting(false), Engine::ALL.to_vec());
    assert_eq!(
        engines_supporting(true),
        vec![Engine::TreeCrr, Engine::TreeLr, Engine::FiniteDifference, Engine::MonteCarlo]
    );
}

#[test]
fn unsupported_error_names_the_engine() {
    match Engine::Cos.unsupported("why") {
        Error::Unsupported { engine, reason } => {
            assert_eq!(engine, "cos");
            assert_eq!(reason, "why");
        }
        other => panic!("unexpected {other:?}"),
    }
}

#[test]
fn c_names_are_nul_terminated_names() {
    for e in Engine::ALL {
        assert_eq!(e.c_name(), format!("{}\0", e.name()));
    }
}

#[test]
fn ids_decode() {
    for e in Engine::ALL {
        assert_eq!(Engine::from_id(e.id()), Some(e));
    }
    assert_eq!(Engine::from_id(-1), None);
    assert_eq!(Engine::from_id(6), None);
}
