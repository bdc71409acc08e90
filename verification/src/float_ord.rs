//! Tri-state ordering of 64-bit floating-point operands.
//!
//! A floating-point operand enters the library as its IEEE 754 binary64
//! bit pattern, held in a `u64`; callers convert with `f64::to_bits`. The
//! orderer reproduces an equal-test-first comparison: Equal when the
//! operands compare numerically equal, Less when the left compares below
//! the right, and Greater otherwise. A non-ordered value (NaN) is never
//! equal to nor below anything, so every comparison that involves one —
//! including a NaN against itself — falls into the Greater branch. That
//! total-order fallback is deliberate comparator semantics, not an error.

use vstd::prelude::*;
use core::cmp::Ordering;

verus! {

/// High bit of a binary64 pattern: the sign.
pub const F64_SIGN_BIT: u64 = 0x8000_0000_0000_0000;

/// Magnitude of an infinity: the exponent field all ones, the fraction
/// zero. Patterns of strictly larger magnitude are NaN.
pub const F64_INF_MAGNITUDE: u64 = 0x7ff0_0000_0000_0000;

/// The magnitude bits of a pattern: the pattern with its sign bit cleared.
pub open spec fn f64_magnitude(bits: u64) -> u64 {
    if bits >= F64_SIGN_BIT {
        (bits - F64_SIGN_BIT) as u64
    } else {
        bits
    }
}

/// Whether the pattern denotes a non-ordered value (NaN): exponent all
/// ones with a non-zero fraction.
pub open spec fn f64_is_nan(bits: u64) -> bool {
    f64_magnitude(bits) > F64_INF_MAGNITUDE
}

/// Whether the pattern denotes a zero, of either sign.
pub open spec fn f64_is_zero(bits: u64) -> bool {
    f64_magnitude(bits) == 0
}

/// A key that orders non-NaN patterns as binary64 values: patterns with
/// the sign bit set denote negative values and order in reverse of their
/// magnitude, below every non-negative value.
pub open spec fn f64_key(bits: u64) -> int {
    if bits >= F64_SIGN_BIT {
        0xffff_ffff_ffff_ffff - bits
    } else {
        bits + F64_SIGN_BIT
    }
}

/// Numeric equality of two binary64 patterns: both ordered, and either
/// the same pattern or two zeros of opposite sign.
pub open spec fn f64_eq_bits(a: u64, b: u64) -> bool {
    &&& !f64_is_nan(a)
    &&& !f64_is_nan(b)
    &&& (a == b || (f64_is_zero(a) && f64_is_zero(b)))
}

/// Numeric strictly-below of two binary64 patterns: both ordered, not
/// numerically equal, and the left key below the right key.
pub open spec fn f64_lt_bits(a: u64, b: u64) -> bool {
    &&& !f64_is_nan(a)
    &&& !f64_is_nan(b)
    &&& !f64_eq_bits(a, b)
    &&& f64_key(a) < f64_key(b)
}

/// The tri-state ordering of two binary64 patterns: equal-test first,
/// then strictly-below, and Greater as the fallback that also swallows
/// every non-ordered operand.
pub open spec fn f64_ordering(a: u64, b: u64) -> Ordering {
    if f64_eq_bits(a, b) {
        Ordering::Equal
    } else if f64_lt_bits(a, b) {
        Ordering::Less
    } else {
        Ordering::Greater
    }
}

/// Exec magnitude of a pattern.
fn magnitude(bits: u64) -> (r: u64)
    ensures
        r == f64_magnitude(bits),
{
    if bits >= F64_SIGN_BIT {
        bits - F64_SIGN_BIT
    } else {
        bits
    }
}

/// Exec order key of a pattern.
fn order_key(bits: u64) -> (r: u64)
    ensures
        r == f64_key(bits),
{
    if bits >= F64_SIGN_BIT {
        0xffff_ffff_ffff_ffff - bits
    } else {
        bits + F64_SIGN_BIT
    }
}

/// Orders two floating-point operands given as binary64 bit patterns.
pub fn cmp_f64_bits(lhs: u64, rhs: u64) -> (r: Ordering)
    ensures
        r == f64_ordering(lhs, rhs),
{
    let lhs_mag = magnitude(lhs);
    let rhs_mag = magnitude(rhs);
    let lhs_nan = lhs_mag > F64_INF_MAGNITUDE;
    let rhs_nan = rhs_mag > F64_INF_MAGNITUDE;
    if !lhs_nan && !rhs_nan && (lhs == rhs || (lhs_mag == 0 && rhs_mag == 0)) {
        Ordering::Equal
    } else if !lhs_nan && !rhs_nan && order_key(lhs) < order_key(rhs) {
        Ordering::Less
    } else {
        Ordering::Greater
    }
}

/// Law: the floating-point orderer is reflexive on every ordered operand.
/// A non-ordered operand is the stated exception: it is not equal to
/// itself, so comparing it with itself yields Greater.
pub proof fn lemma_f64_cmp_reflexive(a: u64)
    requires
        !f64_is_nan(a),
    ensures
        f64_ordering(a, a) == Ordering::Equal,
{
}

/// Law: on ordered operands the floating-point orderer is antisymmetric —
/// swapping the operands turns Less into Greater and back. Non-ordered
/// operands are the stated exception: with one on either side both
/// directions yield Greater.
pub proof fn lemma_f64_cmp_antisymmetric(a: u64, b: u64)
    requires
        !f64_is_nan(a),
        !f64_is_nan(b),
    ensures
        (f64_ordering(a, b) == Ordering::Less) <==> (f64_ordering(b, a) == Ordering::Greater),
{
    assert(f64_key(a) == f64_key(b) ==> a == b);
}

} // verus!
