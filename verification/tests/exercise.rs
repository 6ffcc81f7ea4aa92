use optrs::abi::OptStyle;
use optrs::exercise::step_mask;

#[test]
fn european_mask_marks_only_expiry() {
    let m = step_mask(OptStyle::European, 4, &vec![]);
    assert_eq!(m, vec![false, false, false, false, true]);
}

#[test]
fn american_mask_marks_every_step_but_today() {
    let m = step_mask(OptStyle::American, 4, &vec![]);
    assert_eq!(m, vec![false, true, true, true, true]);
}

#[test]
fn bermudan_dates_snap_and_clamp() {
    // Dates snapping to 0 are moved to step 1; past the grid, to expiry.
    let m = step_mask(OptStyle::Bermudan, 8, &vec![0, 3, 3, 12]);
    assert_eq!(m, vec![false, true, false, true, false, false, false, false, true]);
}

#[test]
fn bermudan_without_dates_is_exercisable_at_expiry() {
    let m = step_mask(OptStyle::Bermudan, 3, &vec![]);
    assert_eq!(m, vec![false, false, false, true]);
}

#[test]
fn bermudan_lies_between_european_and_american() {
    let steps = 10;
    let e = step_mask(OptStyle::European, steps, &vec![]);
    let b = step_mask(OptStyle::Bermudan, steps, &vec![2, 5, 7]);
    let a = step_mask(OptStyle::American, steps, &vec![]);
    for i in 0..=steps {
        assert!(!e[i] || b[i]);
        assert!(!b[i] || a[i]);
    }
}

#[test]
fn single_step_grid() {
    assert_eq!(step_mask(OptStyle::European, 0, &vec![]), vec![true]);
    assert_eq!(step_mask(OptStyle::American, 0, &vec![]), vec![false]);
    assert_eq!(step_mask(OptStyle::Bermudan, 0, &vec![]), vec![true]);
    assert_eq!(step_mask(OptStyle::Bermudan, 1, &vec![0, 1, 2]), vec![false, true]);
}
