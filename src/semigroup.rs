//! Associative combination of two values.

use vstd::prelude::*;

verus! {

/// A type with an associative operation, specified over its view.
pub trait Semigroup: Sized + View {
    /// What combining two values gives, on their views.
    spec fn combine(a: Self::V, b: Self::V) -> Self::V;

    /// The operation is associative.
    proof fn lemma_associative(a: Self::V, b: Self::V, c: Self::V)
        ensures
            Self::combine(Self::combine(a, b), c) == Self::combine(a, Self::combine(b, c)),
    ;

    fn semigroup_op(self, other: Self) -> (r: Self)
        ensures
            r@ == Self::combine(self@, other@),
    ;
}

/// Sequences combine by concatenation.
impl<T> Semigroup for Vec<T> {
    open spec fn combine(a: Seq<T>, b: Seq<T>) -> Seq<T> {
        a + b
    }

    proof fn lemma_associative(a: Seq<T>, b: Seq<T>, c: Seq<T>) {
        assert((a + b) + c =~= a + (b + c));
    }

    fn semigroup_op(self, other: Vec<T>) -> (r: Vec<T>) {
        let mut r = self;
        let mut other = other;
        r.append(&mut other);
        r
    }
}

} // verus!
