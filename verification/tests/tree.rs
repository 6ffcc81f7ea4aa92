use optrs::mc::McConfig;
use optrs::tree::{Crr, LeisenReimer, TreeConfig};

#[test]
fn leisen_reimer_needs_odd_steps() {
    assert_eq!(LeisenReimer.adjust_steps(800), 801);
    assert_eq!(LeisenReimer.adjust_steps(801), 801);
    assert_eq!(LeisenReimer.adjust_steps(0), 1);
    assert_eq!(LeisenReimer.adjust_steps(usize::MAX), usize::MAX);
}

#[test]
fn crr_keeps_the_step_count() {
    assert_eq!(Crr.adjust_steps(800), 800);
    assert_eq!(Crr.adjust_steps(25), 25);
}

#[test]
fn defaults() {
    assert_eq!(TreeConfig::default().steps, 801);
    let mc = McConfig::default();
    assert_eq!(mc.paths, 200_000);
    assert_eq!(mc.steps, 50);
    assert_eq!(mc.seed, 0xC0FF_EE00);
    assert!(mc.antithetic);
    assert!(mc.control_variate);
    assert_eq!(mc.basis_terms, 3);
}

#[test]
fn lattice_needs_three_steps() {
    assert!(TreeConfig { steps: 3 }.check().is_ok());
    match (TreeConfig { steps: 2 }).check() {
        Err(optrs::error::Error::Domain(m)) => assert_eq!(m, "tree needs at least 3 steps"),
        other => panic!("unexpected {other:?}"),
    }
}

#[test]
fn monte_carlo_needs_two_paths_and_clamps_basis() {
    let mut mc = McConfig::default();
    assert!(mc.check().is_ok());
    mc.paths = 1;
    assert!(mc.check().is_err());
    mc.basis_terms = 0;
    assert_eq!(mc.basis_count(), 1);
    mc.basis_terms = 9;
    assert_eq!(mc.basis_count(), 4);
    mc.basis_terms = 2;
    assert_eq!(mc.basis_count(), 2);
}
