//! Right-associative reduction of a container.

use vstd::prelude::*;
use crate::typeapp::{Shape, TypeApp, WithTypeArg};

verus! {

/// `f` may be called on every element of `xs` with any accumulator.
pub open spec fn foldable_with<A, B, F: Fn(A, B) -> B>(f: F, xs: Seq<A>) -> bool {
    forall|i: int, b: B| 0 <= i < xs.len() ==> #[trigger] f.requires((xs[i], b))
}

/// `f` may be called on a reference to every element of `xs` with any accumulator.
pub open spec fn foldable_with_ref<A, B, F: Fn(&A, B) -> B>(f: F, xs: Seq<A>) -> bool {
    forall|i: int, b: B| 0 <= i < xs.len() ==> #[trigger] f.requires((&xs[i], b))
}

/// `accs` are the accumulators of a right fold of `xs` through `f` from
/// `init`: the last is `init`, each other one is what `f` returned for the
/// element at its position and the accumulator after it, and the first is
/// the result, `f(xs[0], f(xs[1], ... f(xs[n - 1], init)))`.
pub open spec fn folded_right<A, B, F: Fn(A, B) -> B>(
    f: F,
    xs: Seq<A>,
    init: B,
    accs: Seq<B>,
) -> bool {
    &&& accs.len() == xs.len() + 1
    &&& accs[xs.len() as int] == init
    &&& forall|i: int| 0 <= i < xs.len() ==> f.ensures((xs[i], accs[i + 1]), #[trigger] accs[i])
}

/// As `folded_right`, with `f` taking references to the elements.
pub open spec fn folded_right_ref<A, B, F: Fn(&A, B) -> B>(
    f: F,
    xs: Seq<A>,
    init: B,
    accs: Seq<B>,
) -> bool {
    &&& accs.len() == xs.len() + 1
    &&& accs[xs.len() as int] == init
    &&& forall|i: int| 0 <= i < xs.len() ==> f.ensures((&xs[i], accs[i + 1]), #[trigger] accs[i])
}

/// Right fold that consumes the container.
pub trait LinearFoldable: Shape {
    fn lfoldr<F: Fn(TIn, TOut) -> TOut, TIn, TOut>(
        f: F,
        init: TOut,
        x: <Self as WithTypeArg<TIn>>::Type,
    ) -> (r: TOut) where Self: WithTypeArg<TIn>
        requires
            foldable_with(f, <Self as WithTypeArg<TIn>>::elems(x)),
        ensures
            exists|accs: Seq<TOut>|
                #[trigger] folded_right(f, <Self as WithTypeArg<TIn>>::elems(x), init, accs)
                    && accs[0] == r,
    ;
}

/// `lfoldr(f, init, x)` on an owned container.
pub fn lfoldr<TCon, F: Fn(TIn, TOut) -> TOut, TIn, TOut, X: TypeApp<TCon, TIn>>(
    f: F,
    init: TOut,
    x: X,
) -> (r: TOut) where TCon: LinearFoldable + WithTypeArg<TIn>
    requires
        foldable_with(f, <TCon as WithTypeArg<TIn>>::elems(x.as_app())),
    ensures
        exists|accs: Seq<TOut>|
            #[trigger] folded_right(f, <TCon as WithTypeArg<TIn>>::elems(x.as_app()), init, accs)
                && accs[0] == r,
{
    TCon::lfoldr(f, init, x.into_val())
}

/// Right fold over a borrowed container.
pub trait Foldable: Shape {
    fn foldr<F: Fn(&TIn, TOut) -> TOut, TIn, TOut>(
        f: F,
        init: TOut,
        x: &<Self as WithTypeArg<TIn>>::Type,
    ) -> (r: TOut) where Self: WithTypeArg<TIn>
        requires
            foldable_with_ref(f, <Self as WithTypeArg<TIn>>::elems(*x)),
        ensures
            exists|accs: Seq<TOut>|
                #[trigger] folded_right_ref(f, <Self as WithTypeArg<TIn>>::elems(*x), init, accs)
                    && accs[0] == r,
    ;
}

/// `foldr(f, init, x)` on a borrowed container.
pub fn foldr<TCon, F: Fn(&TIn, TOut) -> TOut, TIn, TOut, X: TypeApp<TCon, TIn>>(
    f: F,
    init: TOut,
    x: &X,
) -> (r: TOut) where TCon: Foldable + WithTypeArg<TIn>
    requires
        foldable_with_ref(f, <TCon as WithTypeArg<TIn>>::elems(x.as_app())),
    ensures
        exists|accs: Seq<TOut>|
            #[trigger] folded_right_ref(
                f,
                <TCon as WithTypeArg<TIn>>::elems(x.as_app()),
                init,
                accs,
            ) && accs[0] == r,
{
    TCon::foldr(f, init, x.into_ref())
}

} // verus!
