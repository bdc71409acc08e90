//! Comparison operators and the mapper from a tri-state ordering to a
//! boolean verdict. The mapping table is identical for every value domain.

use vstd::prelude::*;
use core::cmp::Ordering;

verus! {

/// The operator half of a comparison signature: which predicate over the
/// tri-state ordering of two concrete operands the caller asked for.
///
/// `NullSafeEqual` behaves exactly like `Equal` once both operands are
/// concrete; its special treatment of NULL operands lives entirely in the
/// propagation layer (`crate::compare`).
#[derive(Clone, Copy, Debug, PartialEq, Eq, Structural)]
pub enum CmpOp {
    LessThan,
    LessOrEqual,
    GreaterThan,
    GreaterOrEqual,
    Equal,
    NotEqual,
    NullSafeEqual,
}

/// The operator table: whether `op` is satisfied by the ordering `ord` of
/// two concrete operands.
pub open spec fn op_holds(op: CmpOp, ord: Ordering) -> bool {
    match op {
        CmpOp::LessThan => ord == Ordering::Less,
        CmpOp::LessOrEqual => ord != Ordering::Greater,
        CmpOp::GreaterThan => ord == Ordering::Greater,
        CmpOp::GreaterOrEqual => ord != Ordering::Less,
        CmpOp::Equal => ord == Ordering::Equal,
        CmpOp::NotEqual => ord != Ordering::Equal,
        CmpOp::NullSafeEqual => ord == Ordering::Equal,
    }
}

/// Maps a tri-state ordering and an operator to the boolean verdict of the
/// comparison, following the operator table.
pub fn op_to_bool(op: CmpOp, ord: Ordering) -> (r: bool)
    ensures
        r == op_holds(op, ord),
{
    match op {
        CmpOp::LessThan => matches!(ord, Ordering::Less),
        CmpOp::LessOrEqual => !matches!(ord, Ordering::Greater),
        CmpOp::GreaterThan => matches!(ord, Ordering::Greater),
        CmpOp::GreaterOrEqual => !matches!(ord, Ordering::Less),
        CmpOp::Equal => matches!(ord, Ordering::Equal),
        CmpOp::NotEqual => !matches!(ord, Ordering::Equal),
        CmpOp::NullSafeEqual => matches!(ord, Ordering::Equal),
    }
}

/// Law: a tri-state ordering is exactly one of Less, Equal and Greater.
pub proof fn lemma_ordering_exclusive(ord: Ordering)
    ensures
        ord == Ordering::Less || ord == Ordering::Equal || ord == Ordering::Greater,
        !(ord == Ordering::Less && ord == Ordering::Equal),
        !(ord == Ordering::Less && ord == Ordering::Greater),
        !(ord == Ordering::Equal && ord == Ordering::Greater),
{
    match ord {
        Ordering::Less => {},
        Ordering::Equal => {},
        Ordering::Greater => {},
    }
}

/// Law: for every ordering of two concrete operands, `Equal` holds exactly
/// when `NotEqual` does not, so the two verdicts are complements on every
/// domain and every concrete operand pair.
pub proof fn lemma_equal_complements_not_equal(ord: Ordering)
    ensures
        op_holds(CmpOp::Equal, ord) <==> !op_holds(CmpOp::NotEqual, ord),
{
}

/// Law: once both operands are concrete, the null-safe equality follows
/// the plain equality rule exactly.
pub proof fn lemma_null_safe_equal_concrete(ord: Ordering)
    ensures
        op_holds(CmpOp::NullSafeEqual, ord) == op_holds(CmpOp::Equal, ord),
{
}

/// Law: for every ordering of two concrete operands, a true `LessThan`
/// verdict forces a true `LessOrEqual` verdict and a false `GreaterThan`
/// verdict, on every domain and every concrete operand pair.
pub proof fn lemma_less_than_strict(ord: Ordering)
    ensures
        op_holds(CmpOp::LessThan, ord) ==> op_holds(CmpOp::LessOrEqual, ord)
            && !op_holds(CmpOp::GreaterThan, ord),
{
}

} // verus!
