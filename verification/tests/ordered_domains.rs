use std::cmp::Ordering;

use sqlcmp::compare::{compare_decimal, compare_duration, compare_json, compare_time};
use sqlcmp::op::{op_to_bool, CmpOp};

#[test]
fn test_op_to_bool_table() {
    let orderings = [Ordering::Less, Ordering::Equal, Ordering::Greater];
    let expectations = [
        (CmpOp::LessThan, [true, false, false]),
        (CmpOp::LessOrEqual, [true, true, false]),
        (CmpOp::GreaterThan, [false, false, true]),
        (CmpOp::GreaterOrEqual, [false, true, true]),
        (CmpOp::Equal, [false, true, false]),
        (CmpOp::NotEqual, [true, false, true]),
        (CmpOp::NullSafeEqual, [false, true, false]),
    ];
    for (op, expected) in expectations {
        for (ord, want) in orderings.iter().zip(expected) {
            assert_eq!(op_to_bool(op, *ord), want);
        }
    }
}

#[test]
fn test_compare_decimal_concrete() {
    assert_eq!(compare_decimal(CmpOp::LessThan, false, false, Ordering::Less), Some(1));
    assert_eq!(compare_decimal(CmpOp::Equal, false, false, Ordering::Equal), Some(1));
    assert_eq!(compare_decimal(CmpOp::GreaterOrEqual, false, false, Ordering::Less), Some(0));
}

#[test]
fn test_compare_decimal_null_propagation() {
    assert_eq!(compare_decimal(CmpOp::Equal, true, false, Ordering::Equal), None);
    assert_eq!(compare_decimal(CmpOp::NullSafeEqual, true, false, Ordering::Less), Some(1));
    assert_eq!(compare_decimal(CmpOp::NullSafeEqual, true, true, Ordering::Less), Some(1));
}

#[test]
fn test_compare_time_and_duration() {
    assert_eq!(compare_time(CmpOp::GreaterThan, false, false, Ordering::Greater), Some(1));
    assert_eq!(compare_time(CmpOp::NotEqual, true, false, Ordering::Equal), None);
    assert_eq!(compare_duration(CmpOp::LessOrEqual, false, false, Ordering::Equal), Some(1));
    assert_eq!(compare_duration(CmpOp::NullSafeEqual, false, true, Ordering::Greater), Some(1));
}

#[test]
fn test_compare_json_domain() {
    assert_eq!(compare_json(CmpOp::NotEqual, false, false, Ordering::Less), Some(1));
    assert_eq!(compare_json(CmpOp::Equal, false, true, Ordering::Equal), None);
}
