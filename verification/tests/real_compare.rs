use std::cmp::Ordering;

use sqlcmp::compare::compare_real;
use sqlcmp::float_ord::cmp_f64_bits;
use sqlcmp::op::CmpOp;

fn bits(v: f64) -> u64 {
    v.to_bits()
}

#[test]
fn test_cmp_f64_bits_ordered_values() {
    assert_eq!(cmp_f64_bits(bits(1.0), bits(2.0)), Ordering::Less);
    assert_eq!(cmp_f64_bits(bits(2.0), bits(1.0)), Ordering::Greater);
    assert_eq!(cmp_f64_bits(bits(1.5), bits(1.5)), Ordering::Equal);
    assert_eq!(cmp_f64_bits(bits(-2.5), bits(-1.5)), Ordering::Less);
    assert_eq!(cmp_f64_bits(bits(-1.0), bits(1.0)), Ordering::Less);
    assert_eq!(cmp_f64_bits(bits(f64::NEG_INFINITY), bits(f64::MIN)), Ordering::Less);
    assert_eq!(cmp_f64_bits(bits(f64::INFINITY), bits(f64::MAX)), Ordering::Greater);
}

#[test]
fn test_cmp_f64_bits_signed_zeros_are_equal() {
    assert_eq!(cmp_f64_bits(bits(-0.0), bits(0.0)), Ordering::Equal);
    assert_eq!(cmp_f64_bits(bits(0.0), bits(-0.0)), Ordering::Equal);
}

#[test]
fn test_cmp_f64_bits_matches_native_comparison() {
    let values = [
        f64::NEG_INFINITY,
        f64::MIN,
        -2.5,
        -0.0,
        0.0,
        f64::MIN_POSITIVE,
        1.0,
        2.5,
        f64::MAX,
        f64::INFINITY,
    ];
    for &a in &values {
        for &b in &values {
            let expected = if a == b {
                Ordering::Equal
            } else if a < b {
                Ordering::Less
            } else {
                Ordering::Greater
            };
            assert_eq!(cmp_f64_bits(bits(a), bits(b)), expected);
        }
    }
}

#[test]
fn test_cmp_f64_bits_non_ordered_value_is_greater() {
    assert_eq!(cmp_f64_bits(bits(f64::NAN), bits(1.0)), Ordering::Greater);
    assert_eq!(cmp_f64_bits(bits(1.0), bits(f64::NAN)), Ordering::Greater);
    assert_eq!(cmp_f64_bits(bits(f64::NAN), bits(f64::NAN)), Ordering::Greater);
    assert_eq!(cmp_f64_bits(bits(f64::NAN), bits(f64::INFINITY)), Ordering::Greater);
}

#[test]
fn test_compare_real_non_ordered_value() {
    assert_eq!(
        compare_real(CmpOp::GreaterThan, Some(bits(f64::NAN)), Some(bits(1.0))),
        Some(1)
    );
    assert_eq!(
        compare_real(CmpOp::Equal, Some(bits(f64::NAN)), Some(bits(f64::NAN))),
        Some(0)
    );
    assert_eq!(
        compare_real(CmpOp::GreaterThan, Some(bits(f64::NAN)), Some(bits(f64::NAN))),
        Some(1)
    );
}

#[test]
fn test_compare_real_null_propagation() {
    assert_eq!(compare_real(CmpOp::Equal, None, Some(bits(1.0))), None);
    assert_eq!(compare_real(CmpOp::NullSafeEqual, None, Some(bits(1.0))), Some(1));
    assert_eq!(compare_real(CmpOp::NullSafeEqual, None, None), Some(1));
}

#[test]
fn test_compare_real_ordered_values() {
    assert_eq!(compare_real(CmpOp::LessThan, Some(bits(1.0)), Some(bits(2.0))), Some(1));
    assert_eq!(compare_real(CmpOp::LessOrEqual, Some(bits(2.0)), Some(bits(2.0))), Some(1));
    assert_eq!(compare_real(CmpOp::NotEqual, Some(bits(-0.0)), Some(bits(0.0))), Some(0));
}
