//! Algebraic laws of the numeral operations, stated over the results that their
//! contracts give.

use crate::numeral::{lemma_from_int, Numeral};
use vstd::prelude::*;

verus! {

/// Addition commutes: `a.add(&b)` and `b.add(&a)` give the same numeral.
pub proof fn lemma_add_commutative(a: Numeral, b: Numeral)
    requires
        a.wf(),
        b.wf(),
    ensures
        Numeral::from_int(a.value() + b.value()) == Numeral::from_int(b.value() + a.value()),
{
}

/// Addition associates: adding `c` to the sum of `a` and `b` gives the numeral that
/// adding the sum of `b` and `c` to `a` gives.
pub proof fn lemma_add_associative(a: Numeral, b: Numeral, c: Numeral)
    requires
        a.wf(),
        b.wf(),
        c.wf(),
    ensures
        Numeral::from_int(Numeral::from_int(a.value() + b.value()).value() + c.value())
            == Numeral::from_int(a.value() + Numeral::from_int(b.value() + c.value()).value()),
{
    lemma_from_int(a.value() + b.value());
    lemma_from_int(b.value() + c.value());
}

/// Negation undoes itself: negating twice gives back `a`.
pub proof fn lemma_negate_involutive(a: Numeral)
    requires
        a.wf(),
    ensures
        Numeral::from_int(-Numeral::from_int(-a.value()).value()) == a,
{
    lemma_from_int(-a.value());
    crate::numeral::lemma_canonical(a);
}

} // verus!
