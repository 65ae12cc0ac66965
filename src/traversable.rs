//! Turning a container of wrapped values into a wrapped container.

use vstd::prelude::*;
use crate::applicative::SingletonApplicative;
use crate::foldable::LinearFoldable;
use crate::functor::{callable_on, lmap, mapped, LinearFunctor};
use crate::monad::frames;
use crate::typeapp::{Shape, TypeApp, WithTypeArg};

verus! {

/// Every container of `xs` holds an element.
pub open spec fn all_present<A: WithTypeArg<T>, T>(xs: Seq<<A as WithTypeArg<T>>::Type>) -> bool {
    forall|i: int| 0 <= i < xs.len() ==> (#[trigger] <A as WithTypeArg<T>>::elems(xs[i])).len() == 1
}

/// The first element of each container of `xs`.
pub open spec fn firsts<A: WithTypeArg<T>, T>(xs: Seq<<A as WithTypeArg<T>>::Type>) -> Seq<T> {
    Seq::new(xs.len(), |i: int| <A as WithTypeArg<T>>::elems(xs[i])[0])
}

/// The frame that combining the containers `xs` from left to right gives,
/// starting from the frame of a lifted value.
pub open spec fn zipped_frames<A: WithTypeArg<T>, T>(xs: Seq<<A as WithTypeArg<T>>::Type>) -> <A as Shape>::Frame {
    frames::<A, T>(xs).fold_left(A::pure_frame(), |a: <A as Shape>::Frame, b: <A as Shape>::Frame| A::zip_frame(a, b))
}

/// `r` is the sequenced form of `x`: it holds one container of the elements of
/// the wrapped values of `x`, in order and in the frame of `x`, when every
/// one of them is present, and nothing otherwise; its frame combines theirs.
pub open spec fn sequenced<C, A, T>(
    x: <C as WithTypeArg<<A as WithTypeArg<T>>::Type>>::Type,
    r: <A as WithTypeArg<<C as WithTypeArg<T>>::Type>>::Type,
) -> bool where
    C: WithTypeArg<T> + WithTypeArg<<A as WithTypeArg<T>>::Type>,
    A: WithTypeArg<T> + WithTypeArg<<C as WithTypeArg<T>>::Type>,
 {
    let xs = <C as WithTypeArg<<A as WithTypeArg<T>>::Type>>::elems(x);
    let rs = <A as WithTypeArg<<C as WithTypeArg<T>>::Type>>::elems(r);
    &&& <A as WithTypeArg<<C as WithTypeArg<T>>::Type>>::frame(r) == zipped_frames::<A, T>(xs)
    &&& all_present::<A, T>(xs) ==> rs.len() == 1 && <C as WithTypeArg<T>>::elems(rs[0]) == firsts::<A, T>(xs)
        && <C as WithTypeArg<T>>::frame(rs[0]) == <C as WithTypeArg<<A as WithTypeArg<T>>::Type>>::frame(x)
    &&& !all_present::<A, T>(xs) ==> rs.len() == 0
}

/// Sequencing and traversal by value, through a single-slot applicative.
pub trait LinearTraversable: LinearFunctor + LinearFoldable {
    fn sequence<TApplicative, T>(
        x: <Self as WithTypeArg<<TApplicative as WithTypeArg<T>>::Type>>::Type,
    ) -> (r: <TApplicative as WithTypeArg<<Self as WithTypeArg<T>>::Type>>::Type) where
        TApplicative: SingletonApplicative + WithTypeArg<T> + WithTypeArg<<Self as WithTypeArg<T>>::Type>,
        Self: WithTypeArg<T> + WithTypeArg<<TApplicative as WithTypeArg<T>>::Type>,

        ensures
            sequenced::<Self, TApplicative, T>(x, r),
    ;

    /// `sequence` of `f` mapped over `x`.
    fn traverse<TApplicative, TIn, TOut, F: Fn(TIn) -> <TApplicative as WithTypeArg<TOut>>::Type>(
        f: F,
        x: <Self as WithTypeArg<TIn>>::Type,
    ) -> (r: <TApplicative as WithTypeArg<<Self as WithTypeArg<TOut>>::Type>>::Type) where
        TApplicative: SingletonApplicative + WithTypeArg<TOut> + WithTypeArg<<Self as WithTypeArg<TOut>>::Type>,
        Self: WithTypeArg<TIn> + WithTypeArg<TOut> + WithTypeArg<<TApplicative as WithTypeArg<TOut>>::Type>,

        requires
            callable_on(f, <Self as WithTypeArg<TIn>>::elems(x)),
        ensures
            exists|m: <Self as WithTypeArg<<TApplicative as WithTypeArg<TOut>>::Type>>::Type|
                #[trigger] sequenced::<Self, TApplicative, TOut>(m, r) && mapped(
                    f,
                    <Self as WithTypeArg<TIn>>::elems(x),
                    <Self as WithTypeArg<<TApplicative as WithTypeArg<TOut>>::Type>>::elems(m),
                ) && <Self as WithTypeArg<<TApplicative as WithTypeArg<TOut>>::Type>>::frame(m)
                    == <Self as WithTypeArg<TIn>>::frame(x),
    {
        let m = Self::lmap::<TIn, <TApplicative as WithTypeArg<TOut>>::Type, F>(f, x);
        let r = Self::sequence::<TApplicative, TOut>(m);
        r
    }
}

/// `traverse(f, x)`: maps `f` over the owned `x` and sequences the result.
pub fn traverse<TCon, TApplicative, TIn, TOut, F: Fn(TIn) -> <TApplicative as WithTypeArg<TOut>>::Type, X: TypeApp<TCon, TIn>>(
    f: F,
    x: X,
) -> (r: <TApplicative as WithTypeArg<<TCon as WithTypeArg<TOut>>::Type>>::Type) where
    TApplicative: SingletonApplicative + WithTypeArg<TOut> + WithTypeArg<<TCon as WithTypeArg<TOut>>::Type>,
    TCon: LinearTraversable + WithTypeArg<TIn> + WithTypeArg<TOut> + WithTypeArg<<TApplicative as WithTypeArg<TOut>>::Type>,

    requires
        callable_on(f, <TCon as WithTypeArg<TIn>>::elems(x.as_app())),
    ensures
        exists|m: <TCon as WithTypeArg<<TApplicative as WithTypeArg<TOut>>::Type>>::Type|
            #[trigger] sequenced::<TCon, TApplicative, TOut>(m, r) && mapped(
                f,
                <TCon as WithTypeArg<TIn>>::elems(x.as_app()),
                <TCon as WithTypeArg<<TApplicative as WithTypeArg<TOut>>::Type>>::elems(m),
            ) && <TCon as WithTypeArg<<TApplicative as WithTypeArg<TOut>>::Type>>::frame(m)
                == <TCon as WithTypeArg<TIn>>::frame(x.as_app()),
{
    TCon::traverse::<TApplicative, TIn, TOut, F>(f, x.into_val())
}

/// `sequence(x)`: turns the owned container `x` of wrapped values into a
/// wrapped container.
pub fn sequence<TCon, TApplicative, T, X: TypeApp<TCon, Y>, Y: TypeApp<TApplicative, T>>(x: X) -> (r: <TApplicative as WithTypeArg<<TCon as WithTypeArg<T>>::Type>>::Type) where
    TApplicative: SingletonApplicative + WithTypeArg<T> + WithTypeArg<<TCon as WithTypeArg<T>>::Type>,
    TCon: LinearTraversable + WithTypeArg<T> + WithTypeArg<<TApplicative as WithTypeArg<T>>::Type> + WithTypeArg<Y>,

    ensures
        exists|m: <TCon as WithTypeArg<<TApplicative as WithTypeArg<T>>::Type>>::Type|
            #[trigger] sequenced::<TCon, TApplicative, T>(m, r)
                && <TCon as WithTypeArg<<TApplicative as WithTypeArg<T>>::Type>>::elems(m)
                == <TCon as WithTypeArg<Y>>::elems(x.as_app()).map_values(|y: Y| y.as_app())
                && <TCon as WithTypeArg<<TApplicative as WithTypeArg<T>>::Type>>::frame(m)
                == <TCon as WithTypeArg<Y>>::frame(x.as_app()),
{
    let unwrap = |y: Y| -> (o: <TApplicative as WithTypeArg<T>>::Type)
        ensures
            o == y.as_app(),
        { y.into_val() };
    let m = TCon::lmap::<Y, <TApplicative as WithTypeArg<T>>::Type, _>(unwrap, x.into_val());
    proof {
        let ys = <TCon as WithTypeArg<Y>>::elems(x.as_app());
        let ms = <TCon as WithTypeArg<<TApplicative as WithTypeArg<T>>::Type>>::elems(m);
        assert forall|i: int| 0 <= i < ys.len() implies ms[i] == ys.map_values(|y: Y| y.as_app())[i] by {
            assert(unwrap.ensures((ys[i],), ms[i]));
        }
        assert(ms =~= ys.map_values(|y: Y| y.as_app()));
    }
    TCon::sequence::<TApplicative, T>(m)
}

} // verus!
