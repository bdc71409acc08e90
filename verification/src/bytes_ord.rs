//! Tri-state lexicographic ordering of byte strings.

use vstd::prelude::*;
use core::cmp::Ordering;

verus! {

/// The lexicographic ordering of the suffixes of `a` and `b` that start
/// at position `i`: the first differing byte decides, and when one suffix
/// is a proper prefix of the other the shorter one orders below.
pub open spec fn lex_ordering_from(a: Seq<u8>, b: Seq<u8>, i: int) -> Ordering
    decreases a.len() - i,
{
    if i >= a.len() && i >= b.len() {
        Ordering::Equal
    } else if i >= a.len() {
        Ordering::Less
    } else if i >= b.len() {
        Ordering::Greater
    } else if a[i] < b[i] {
        Ordering::Less
    } else if a[i] > b[i] {
        Ordering::Greater
    } else {
        lex_ordering_from(a, b, i + 1)
    }
}

/// The lexicographic tri-state ordering of two byte strings.
pub open spec fn lex_ordering(a: Seq<u8>, b: Seq<u8>) -> Ordering {
    lex_ordering_from(a, b, 0)
}

/// Orders two byte strings lexicographically.
pub fn cmp_bytes(lhs: &[u8], rhs: &[u8]) -> (r: Ordering)
    ensures
        r == lex_ordering(lhs@, rhs@),
{
    let mut i: usize = 0;
    while i < lhs.len() && i < rhs.len()
        invariant
            i <= lhs@.len(),
            i <= rhs@.len(),
            lex_ordering(lhs@, rhs@) == lex_ordering_from(lhs@, rhs@, i as int),
        decreases lhs@.len() - i,
    {
        if lhs[i] < rhs[i] {
            return Ordering::Less;
        }
        if lhs[i] > rhs[i] {
            return Ordering::Greater;
        }
        i = i + 1;
    }
    if lhs.len() == rhs.len() {
        Ordering::Equal
    } else if lhs.len() < rhs.len() {
        Ordering::Less
    } else {
        Ordering::Greater
    }
}

/// Law: the lexicographic orderer is reflexive — every byte string is
/// Equal to itself.
pub proof fn lemma_lex_reflexive(a: Seq<u8>)
    ensures
        lex_ordering(a, a) == Ordering::Equal,
{
    lemma_lex_from_reflexive(a, 0);
}

proof fn lemma_lex_from_reflexive(a: Seq<u8>, i: int)
    ensures
        lex_ordering_from(a, a, i) == Ordering::Equal,
    decreases a.len() - i,
{
    if i < a.len() {
        lemma_lex_from_reflexive(a, i + 1);
    }
}

/// Law: the lexicographic orderer is antisymmetric — swapping the two
/// byte strings turns Less into Greater and back.
pub proof fn lemma_lex_antisymmetric(a: Seq<u8>, b: Seq<u8>)
    ensures
        (lex_ordering(a, b) == Ordering::Less) <==> (lex_ordering(b, a) == Ordering::Greater),
{
    lemma_lex_from_antisymmetric(a, b, 0);
}

proof fn lemma_lex_from_antisymmetric(a: Seq<u8>, b: Seq<u8>, i: int)
    ensures
        (lex_ordering_from(a, b, i) == Ordering::Less) <==> (lex_ordering_from(b, a, i)
            == Ordering::Greater),
    decreases a.len() + b.len() - i,
{
    if i < a.len() && i < b.len() && a[i] == b[i] {
        lemma_lex_from_antisymmetric(a, b, i + 1);
    }
}

} // verus!
