//! NULL propagation and the per-domain comparison entry points.
//!
//! Each entry point takes the two operand evaluation results after the
//! caller has already surfaced any evaluation error: an operand is either
//! a concrete value or NULL. The result is `None` for the SQL unknown and
//! `Some(0)` or `Some(1)` for a decided comparison.
//!
//! With at least one NULL operand, `NullSafeEqual` yields `Some(1)` and
//! every other operator yields `None`. This reproduces the established
//! behaviour: the null-safe verdict is 1 whenever either operand is NULL,
//! not only when both are.
//!
//! The decimal, timestamp, duration and JSON domains already expose a
//! deterministic total order through their own value representations; the
//! caller obtains that tri-state ordering and hands it in, together with a
//! NULL flag per operand. Integer, floating-point and byte-string operands
//! are ordered by the library itself.

use vstd::prelude::*;
use core::cmp::Ordering;
use crate::op::{CmpOp, op_holds, op_to_bool};
use crate::int_ord::{int_operand, ordering_of, cmp_i64_with_unsigned_flag};
use crate::float_ord::{f64_ordering, cmp_f64_bits};
use crate::bytes_ord::{lex_ordering, cmp_bytes};

verus! {

/// The comparison result once at least one operand is NULL: decided true
/// for the null-safe equality, unknown for every other operator.
pub open spec fn null_result(op: CmpOp) -> Option<i64> {
    if op is NullSafeEqual {
        Some(1i64)
    } else {
        None
    }
}

/// The comparison result once both operands are concrete and order as
/// `ord`: 1 when the operator holds of the ordering, 0 otherwise.
pub open spec fn concrete_result(op: CmpOp, ord: Ordering) -> Option<i64> {
    if op_holds(op, ord) {
        Some(1i64)
    } else {
        Some(0i64)
    }
}

/// The comparison result for two operand evaluation outcomes: a NULL flag
/// per operand, and the tri-state ordering of the two values for the case
/// that both are concrete.
pub open spec fn outcome(op: CmpOp, lhs_null: bool, rhs_null: bool, ord: Ordering) -> Option<i64> {
    if lhs_null || rhs_null {
        null_result(op)
    } else {
        concrete_result(op, ord)
    }
}

/// The NULL propagation wrapper shared by every domain: applies the
/// NULL-handling policy, and only on two concrete operands maps their
/// ordering through the operator table. `ord` is read only when neither
/// NULL flag is set.
pub fn compare_from_ordering(op: CmpOp, lhs_null: bool, rhs_null: bool, ord: Ordering) -> (r: Option<i64>)
    ensures
        r == outcome(op, lhs_null, rhs_null, ord),
{
    if lhs_null || rhs_null {
        if op == CmpOp::NullSafeEqual {
            Some(1)
        } else {
            None
        }
    } else if op_to_bool(op, ord) {
        Some(1)
    } else {
        Some(0)
    }
}

/// The integer comparison result: NULL propagation around the
/// signedness-aware integer orderer.
pub open spec fn compare_int_spec(
    op: CmpOp,
    lhs: Option<i64>,
    lhs_unsigned: bool,
    rhs: Option<i64>,
    rhs_unsigned: bool,
) -> Option<i64> {
    match (lhs, rhs) {
        (Some(l), Some(r)) => concrete_result(
            op,
            ordering_of(int_operand(l, lhs_unsigned), int_operand(r, rhs_unsigned)),
        ),
        _ => null_result(op),
    }
}

/// Compares two integer operands, each a 64-bit bit pattern with its own
/// externally supplied signedness flag, or NULL.
pub fn compare_int(
    op: CmpOp,
    lhs: Option<i64>,
    lhs_unsigned: bool,
    rhs: Option<i64>,
    rhs_unsigned: bool,
) -> (r: Option<i64>)
    ensures
        r == compare_int_spec(op, lhs, lhs_unsigned, rhs, rhs_unsigned),
{
    match (lhs, rhs) {
        (Some(l), Some(r)) => {
            let ord = cmp_i64_with_unsigned_flag(l, lhs_unsigned, r, rhs_unsigned);
            compare_from_ordering(op, false, false, ord)
        },
        (l, r) => compare_from_ordering(op, l.is_none(), r.is_none(), Ordering::Equal),
    }
}

/// The floating-point comparison result: NULL propagation around the
/// bit-pattern float orderer.
pub open spec fn compare_real_spec(op: CmpOp, lhs: Option<u64>, rhs: Option<u64>) -> Option<i64> {
    match (lhs, rhs) {
        (Some(l), Some(r)) => concrete_result(op, f64_ordering(l, r)),
        _ => null_result(op),
    }
}

/// Compares two floating-point operands, each an IEEE 754 binary64 bit
/// pattern, or NULL.
pub fn compare_real(op: CmpOp, lhs: Option<u64>, rhs: Option<u64>) -> (r: Option<i64>)
    ensures
        r == compare_real_spec(op, lhs, rhs),
{
    match (lhs, rhs) {
        (Some(l), Some(r)) => {
            let ord = cmp_f64_bits(l, r);
            compare_from_ordering(op, false, false, ord)
        },
        (l, r) => compare_from_ordering(op, l.is_none(), r.is_none(), Ordering::Equal),
    }
}

/// The byte-string comparison result: NULL propagation around the
/// lexicographic orderer.
pub open spec fn compare_string_spec(
    op: CmpOp,
    lhs: Option<Seq<u8>>,
    rhs: Option<Seq<u8>>,
) -> Option<i64> {
    match (lhs, rhs) {
        (Some(l), Some(r)) => concrete_result(op, lex_ordering(l, r)),
        _ => null_result(op),
    }
}

/// Compares two byte-string operands, or NULL.
pub fn compare_string(op: CmpOp, lhs: Option<Vec<u8>>, rhs: Option<Vec<u8>>) -> (r: Option<i64>)
    ensures
        r == compare_string_spec(op, lhs.deep_view(), rhs.deep_view()),
{
    match (lhs, rhs) {
        (Some(l), Some(r)) => {
            proof {
                assert(l.deep_view() =~= l@);
                assert(r.deep_view() =~= r@);
            }
            let ord = cmp_bytes(l.as_slice(), r.as_slice());
            compare_from_ordering(op, false, false, ord)
        },
        (l, r) => compare_from_ordering(op, l.is_none(), r.is_none(), Ordering::Equal),
    }
}

/// Compares two decimal operands through the decimal domain's own total
/// order: the caller evaluates both operands, sets a NULL flag for each,
/// and for two concrete values hands in their tri-state ordering, which
/// is read only when neither flag is set.
pub fn compare_decimal(op: CmpOp, lhs_null: bool, rhs_null: bool, ord: Ordering) -> (r: Option<i64>)
    ensures
        r == outcome(op, lhs_null, rhs_null, ord),
{
    compare_from_ordering(op, lhs_null, rhs_null, ord)
}

/// Compares two timestamp operands through the timestamp domain's
/// chronological total order, handed in by the caller as for
/// `compare_decimal`.
pub fn compare_time(op: CmpOp, lhs_null: bool, rhs_null: bool, ord: Ordering) -> (r: Option<i64>)
    ensures
        r == outcome(op, lhs_null, rhs_null, ord),
{
    compare_from_ordering(op, lhs_null, rhs_null, ord)
}

/// Compares two time-duration operands through the duration domain's
/// chronological total order, handed in by the caller as for
/// `compare_decimal`.
pub fn compare_duration(op: CmpOp, lhs_null: bool, rhs_null: bool, ord: Ordering) -> (r: Option<i64>)
    ensures
        r == outcome(op, lhs_null, rhs_null, ord),
{
    compare_from_ordering(op, lhs_null, rhs_null, ord)
}

/// Compares two JSON document operands through the JSON domain's fixed
/// type-then-value total order, handed in by the caller as for
/// `compare_decimal`.
pub fn compare_json(op: CmpOp, lhs_null: bool, rhs_null: bool, ord: Ordering) -> (r: Option<i64>)
    ensures
        r == outcome(op, lhs_null, rhs_null, ord),
{
    compare_from_ordering(op, lhs_null, rhs_null, ord)
}

/// Law: on two concrete operands of any domain, the `Equal` comparison
/// answers 1 exactly when the `NotEqual` comparison answers 0.
pub proof fn lemma_compare_equal_complements_not_equal(ord: Ordering)
    ensures
        concrete_result(CmpOp::Equal, ord) == Some(1i64) <==> concrete_result(
            CmpOp::NotEqual,
            ord,
        ) == Some(0i64),
{
}

/// Law: on two concrete operands of any domain, a `LessThan` answer of 1
/// forces a `LessOrEqual` answer of 1 and a `GreaterThan` answer of 0.
pub proof fn lemma_compare_less_than_strict(ord: Ordering)
    ensures
        concrete_result(CmpOp::LessThan, ord) == Some(1i64) ==> concrete_result(
            CmpOp::LessOrEqual,
            ord,
        ) == Some(1i64) && concrete_result(CmpOp::GreaterThan, ord) == Some(0i64),
{
}

} // verus!
