//! The ordered greater-than on double bit patterns, held against the host's
//! own floating-point comparison.

use nine_eleven::eval::compare_and_report;
use nine_eleven::fbits::float_gt_bits;
use nine_eleven::fbits::is_nan_bits;
use nine_eleven::inputs::{DEFAULT_LHS_BITS, DEFAULT_RHS_BITS};

#[test]
fn greater_pair_compares_true() {
    assert!(float_gt_bits(10.0f64.to_bits(), 5.0f64.to_bits()));
}

#[test]
fn smaller_pair_compares_false() {
    assert!(!float_gt_bits(5.0f64.to_bits(), 10.0f64.to_bits()));
}

#[test]
fn equal_pair_compares_false() {
    assert!(!float_gt_bits(7.5f64.to_bits(), 7.5f64.to_bits()));
}

#[test]
fn nan_operands_compare_false() {
    let nan = f64::NAN.to_bits();
    let one = 1.0f64.to_bits();
    assert!(!float_gt_bits(nan, one));
    assert!(!float_gt_bits(one, nan));
    assert!(!float_gt_bits(nan, nan));
}

#[test]
fn zeros_of_both_signs_are_equal() {
    let pz = 0.0f64.to_bits();
    let nz = (-0.0f64).to_bits();
    assert!(!float_gt_bits(pz, nz));
    assert!(!float_gt_bits(nz, pz));
}

#[test]
fn negative_pairs_order_by_value() {
    assert!(float_gt_bits((-1.5f64).to_bits(), (-2.5f64).to_bits()));
    assert!(!float_gt_bits((-2.5f64).to_bits(), (-1.5f64).to_bits()));
}

#[test]
fn mixed_signs_order_by_sign() {
    assert!(float_gt_bits(0.5f64.to_bits(), (-0.5f64).to_bits()));
    assert!(!float_gt_bits((-0.5f64).to_bits(), 0.5f64.to_bits()));
}

#[test]
fn comparison_matches_host_floats() {
    let values: [f64; 14] = [
        f64::NEG_INFINITY,
        -1.0e308,
        -9.9,
        -9.11,
        -5.0e-324,
        -0.0,
        0.0,
        5.0e-324,
        9.11,
        9.9,
        10.0,
        1.0e308,
        f64::INFINITY,
        f64::NAN,
    ];
    for &a in values.iter() {
        for &b in values.iter() {
            assert_eq!(
                float_gt_bits(a.to_bits(), b.to_bits()),
                a > b,
                "disagrees on {} > {}",
                a,
                b
            );
        }
    }
}

#[test]
fn nan_detection_matches_host() {
    assert!(is_nan_bits(f64::NAN.to_bits()));
    assert!(!is_nan_bits(f64::INFINITY.to_bits()));
    assert!(!is_nan_bits(0.0f64.to_bits()));
    assert!(!is_nan_bits(9.11f64.to_bits()));
}

#[test]
fn default_bits_are_the_fallback_constants() {
    assert_eq!(DEFAULT_LHS_BITS, 9.11f64.to_bits());
    assert_eq!(DEFAULT_RHS_BITS, 9.9f64.to_bits());
}

#[test]
fn default_pair_compares_false() {
    assert!(!float_gt_bits(DEFAULT_LHS_BITS, DEFAULT_RHS_BITS));
}

#[test]
fn report_widens_true_to_one() {
    let (printed, result) = compare_and_report(10.0f64.to_bits(), 5.0f64.to_bits());
    assert_eq!(printed, 1);
    assert!(result);
}

#[test]
fn report_widens_false_to_zero() {
    let (printed, result) = compare_and_report(DEFAULT_LHS_BITS, DEFAULT_RHS_BITS);
    assert_eq!(printed, 0);
    assert!(!result);
}
