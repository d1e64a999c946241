use thurston::error::{SampleError, SampleWarning};
use thurston::matrix::{identity_permutation, is_valid_permutation, swap_entries, SampleMatrix};
use thurston::trunc_mvn::{
    has_singular_diagonal, pivot_index, select_regime, validate_truncation, RejectionControl,
    TailRegime,
};

fn to_bits(values: &[f64]) -> Vec<u64> {
    values.iter().map(|v| v.to_bits()).collect()
}

#[test]
fn valid_truncation_accepted() {
    let lower = to_bits(&[f64::NEG_INFINITY, -1.0, 0.0]);
    let upper = to_bits(&[f64::INFINITY, 1.0, 0.0]);
    assert_eq!(validate_truncation(&lower, &upper, 3, 3), Ok(()));
}

#[test]
fn crossed_bounds_rejected() {
    let lower = to_bits(&[0.0, 2.0]);
    let upper = to_bits(&[1.0, 1.0]);
    assert_eq!(
        validate_truncation(&lower, &upper, 2, 2),
        Err(SampleError::InvalidBounds)
    );
}

#[test]
fn bound_shape_mismatch_rejected() {
    let lower = to_bits(&[0.0, 0.0]);
    let upper = to_bits(&[1.0]);
    assert_eq!(
        validate_truncation(&lower, &upper, 2, 2),
        Err(SampleError::InvalidBounds)
    );
    let upper2 = to_bits(&[1.0, 1.0]);
    assert_eq!(
        validate_truncation(&lower, &upper2, 3, 2),
        Err(SampleError::InvalidBounds)
    );
    assert_eq!(
        validate_truncation(&lower, &upper2, 2, 3),
        Err(SampleError::InvalidBounds)
    );
}

#[test]
fn infinite_lower_bound_above_finite_upper_rejected() {
    let lower = to_bits(&[f64::INFINITY]);
    let upper = to_bits(&[1.0]);
    assert_eq!(
        validate_truncation(&lower, &upper, 1, 1),
        Err(SampleError::InvalidBounds)
    );
    // Equal infinite bounds are admitted.
    let both = to_bits(&[f64::INFINITY]);
    assert_eq!(validate_truncation(&both, &both, 1, 1), Ok(()));
}

#[test]
fn nan_bound_rejected() {
    let lower = to_bits(&[f64::NAN]);
    let upper = to_bits(&[1.0]);
    assert_eq!(
        validate_truncation(&lower, &upper, 1, 1),
        Err(SampleError::InvalidBounds)
    );
}

#[test]
fn regime_selection_follows_interval_geometry() {
    let width = |l: f64, u: f64| (u - l).abs().to_bits();
    // Entirely in the right tail.
    assert_eq!(
        select_regime(1.0f64.to_bits(), 2.0f64.to_bits(), width(1.0, 2.0)),
        TailRegime::RightTail
    );
    // The threshold itself is not in the tail: 0.66 is not greater than 0.66.
    assert_eq!(
        select_regime(0.66f64.to_bits(), 5.0f64.to_bits(), width(0.66, 5.0)),
        TailRegime::WideRejection
    );
    // Entirely in the left tail.
    assert_eq!(
        select_regime((-3.0f64).to_bits(), (-1.0f64).to_bits(), width(-3.0, -1.0)),
        TailRegime::LeftTail
    );
    // Wide central interval.
    assert_eq!(
        select_regime((-2.0f64).to_bits(), 2.0f64.to_bits(), width(-2.0, 2.0)),
        TailRegime::WideRejection
    );
    // Narrow central interval.
    assert_eq!(
        select_regime((-0.5f64).to_bits(), 0.5f64.to_bits(), width(-0.5, 0.5)),
        TailRegime::InverseCdf
    );
    // Width exactly 2.0 is not wide.
    assert_eq!(
        select_regime((-1.0f64).to_bits(), 1.0f64.to_bits(), width(-1.0, 1.0)),
        TailRegime::InverseCdf
    );
    // An unbounded interval in the right tail still uses the tail algorithm.
    assert_eq!(
        select_regime(0.67f64.to_bits(), f64::INFINITY.to_bits(), f64::INFINITY.to_bits()),
        TailRegime::RightTail
    );
}

#[test]
fn singular_diagonal_detection() {
    assert!(!has_singular_diagonal(&to_bits(&[1.0, 0.5, 2.0])));
    assert!(has_singular_diagonal(&to_bits(&[1.0, 1.0e-20, 2.0])));
    // Exactly machine epsilon is not singular; just below it is.
    assert!(!has_singular_diagonal(&to_bits(&[f64::EPSILON])));
    assert!(has_singular_diagonal(&to_bits(&[f64::EPSILON / 2.0])));
    assert!(!has_singular_diagonal(&to_bits(&[])));
}

#[test]
fn rejection_control_counts_batches() {
    let mut ctl = RejectionControl::new(5);
    assert!(!ctl.is_finished());
    assert_eq!(ctl.remaining(), 5);
    assert_eq!(ctl.record_batch(2), None);
    assert_eq!(ctl.remaining(), 3);
    assert_eq!(ctl.record_batch(0), None);
    assert_eq!(ctl.record_batch(3), None);
    assert!(ctl.is_finished());
    assert_eq!(ctl.remaining(), 0);
    assert!(!ctl.should_abandon());
}

#[test]
fn rejection_control_warns_when_acceptance_is_low() {
    let mut ctl = RejectionControl::new(1);
    for _ in 0..999 {
        assert_eq!(ctl.record_batch(0), None);
    }
    assert_eq!(ctl.record_batch(0), Some(SampleWarning::LowAcceptance));
    assert_eq!(ctl.record_batch(0), None);
}

#[test]
fn rejection_control_abandons_past_the_cap() {
    let mut ctl = RejectionControl::new(1);
    for i in 0..10000 {
        let expected = if i == 999 {
            Some(SampleWarning::LowAcceptance)
        } else {
            None
        };
        assert_eq!(ctl.record_batch(0), expected);
        assert!(!ctl.should_abandon());
    }
    assert_eq!(ctl.record_batch(0), Some(SampleWarning::ApproximateSample));
    assert!(ctl.should_abandon());
    assert_eq!(ctl.remaining(), 1);
}

#[test]
fn pivot_picks_smallest_score_from_start() {
    let scores = to_bits(&[-5.0, 3.0, 1.0, 1.0, 2.0]);
    assert_eq!(pivot_index(&scores, 0), 0);
    // From index 1 on, the first of the two equal minima wins.
    assert_eq!(pivot_index(&scores, 1), 2);
    assert_eq!(pivot_index(&scores, 3), 3);
    assert_eq!(pivot_index(&scores, 4), 4);
}

#[test]
fn pivot_treats_nan_as_greatest() {
    let scores = to_bits(&[f64::NAN, 7.0, f64::INFINITY]);
    assert_eq!(pivot_index(&scores, 0), 1);
    // Among NaNs alone the first index stays.
    let all_nan = to_bits(&[f64::NAN, f64::NAN]);
    assert_eq!(pivot_index(&all_nan, 0), 0);
}

#[test]
fn permutation_validity() {
    assert!(is_valid_permutation(&vec![2, 0, 1]));
    assert!(is_valid_permutation(&vec![0]));
    assert!(is_valid_permutation(&vec![]));
    assert!(!is_valid_permutation(&vec![1, 1, 0]));
    assert!(!is_valid_permutation(&vec![3, 0, 1]));
}

#[test]
fn pivot_swaps_keep_a_permutation() {
    let mut perm = identity_permutation(4);
    assert_eq!(perm, vec![0, 1, 2, 3]);
    swap_entries(&mut perm, 0, 2);
    assert_eq!(perm, vec![2, 1, 0, 3]);
    swap_entries(&mut perm, 1, 3);
    assert_eq!(perm, vec![2, 3, 0, 1]);
    swap_entries(&mut perm, 2, 2);
    assert_eq!(perm, vec![2, 3, 0, 1]);
    assert!(is_valid_permutation(&perm));
}

#[test]
fn unpermute_scatters_rows() {
    // 3 rows, 2 columns, column-major.
    let m = SampleMatrix::new(3, 2, vec![10, 11, 12, 20, 21, 22]);
    let perm = vec![2usize, 0, 1];
    let un = m.unpermute_rows(&perm);
    // Row i of m becomes row perm[i] of the result.
    assert_eq!(un.data, vec![11, 12, 10, 21, 22, 20]);
    assert_eq!(un.get(2, 0), 10);
    assert_eq!(un.get(0, 1), 21);
}

#[test]
fn permutation_round_trip_restores_factorization_order() {
    let m = SampleMatrix::new(4, 3, (0..12u64).collect());
    let perm = vec![1usize, 3, 0, 2];
    let un = m.unpermute_rows(&perm);
    let back = un.permute_rows(&perm);
    assert_eq!(back.data, m.data);
}
