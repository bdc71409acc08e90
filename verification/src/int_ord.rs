//! Tri-state ordering of 64-bit integer operands whose bit patterns carry
//! an externally supplied signedness flag each.
//!
//! Two operands may differ in signedness. The orderer behaves as if both
//! values were first promoted losslessly to unbounded integers, so a
//! negative signed value never compares by raw bit pattern against a large
//! unsigned value.

use vstd::prelude::*;
use core::cmp::Ordering;

verus! {

/// The mathematical value of a 64-bit integer operand: the bit pattern is
/// reinterpreted as unsigned when the operand's signedness flag says so.
pub open spec fn int_operand(v: i64, unsigned: bool) -> int {
    if unsigned {
        if v >= 0 {
            v as int
        } else {
            v + 0x1_0000_0000_0000_0000
        }
    } else {
        v as int
    }
}

/// The tri-state ordering of two unbounded integers.
pub open spec fn ordering_of(a: int, b: int) -> Ordering {
    if a < b {
        Ordering::Less
    } else if a == b {
        Ordering::Equal
    } else {
        Ordering::Greater
    }
}

/// Direct signed comparison of two 64-bit values.
fn cmp_i64(lhs: i64, rhs: i64) -> (r: Ordering)
    ensures
        r == ordering_of(lhs as int, rhs as int),
{
    if lhs < rhs {
        Ordering::Less
    } else if lhs == rhs {
        Ordering::Equal
    } else {
        Ordering::Greater
    }
}

/// Comparison of two bit patterns that both stand for unsigned values.
/// When the high bits agree, the signed ordering of the patterns coincides
/// with the unsigned ordering; otherwise the pattern with the high bit set
/// stands for the larger value.
fn cmp_i64_both_unsigned(lhs: i64, rhs: i64) -> (r: Ordering)
    ensures
        r == ordering_of(int_operand(lhs, true), int_operand(rhs, true)),
{
    if (lhs < 0) == (rhs < 0) {
        cmp_i64(lhs, rhs)
    } else if lhs < 0 {
        Ordering::Greater
    } else {
        Ordering::Less
    }
}

/// Orders two 64-bit integer operands, each carrying its own signedness
/// flag, as if both were first promoted losslessly to unbounded integers.
pub fn cmp_i64_with_unsigned_flag(
    lhs: i64,
    lhs_unsigned: bool,
    rhs: i64,
    rhs_unsigned: bool,
) -> (r: Ordering)
    ensures
        r == ordering_of(int_operand(lhs, lhs_unsigned), int_operand(rhs, rhs_unsigned)),
{
    match (lhs_unsigned, rhs_unsigned) {
        (true, true) => cmp_i64_both_unsigned(lhs, rhs),
        (false, false) => cmp_i64(lhs, rhs),
        (true, false) => {
            // An unsigned left operand exceeds every signed right operand as
            // soon as either the right value is negative or the left pattern
            // does not fit in the signed range.
            if rhs < 0 || lhs < 0 {
                Ordering::Greater
            } else {
                cmp_i64(lhs, rhs)
            }
        },
        (false, true) => {
            if lhs < 0 || rhs < 0 {
                Ordering::Less
            } else {
                cmp_i64(lhs, rhs)
            }
        },
    }
}

/// Law: the integer orderer is reflexive — an operand compared with itself,
/// under its own signedness flag, is Equal.
pub proof fn lemma_int_cmp_reflexive(v: i64, unsigned: bool)
    ensures
        ordering_of(int_operand(v, unsigned), int_operand(v, unsigned)) == Ordering::Equal,
{
}

/// Law: the integer orderer is antisymmetric — swapping the operands,
/// each keeping its own signedness flag, turns Less into Greater and back.
pub proof fn lemma_int_cmp_antisymmetric(
    lhs: i64,
    lhs_unsigned: bool,
    rhs: i64,
    rhs_unsigned: bool,
)
    ensures
        (ordering_of(int_operand(lhs, lhs_unsigned), int_operand(rhs, rhs_unsigned))
            == Ordering::Less) <==> (ordering_of(
            int_operand(rhs, rhs_unsigned),
            int_operand(lhs, lhs_unsigned),
        ) == Ordering::Greater),
{
}

/// Law: the integer orderer reports Less, Equal or Greater exactly as the
/// promoted values compare, so exactly one of the three outcomes holds.
pub proof fn lemma_ordering_of_trichotomy(a: int, b: int)
    ensures
        ordering_of(a, b) == Ordering::Less <==> a < b,
        ordering_of(a, b) == Ordering::Equal <==> a == b,
        ordering_of(a, b) == Ordering::Greater <==> a > b,
{
}

} // verus!
