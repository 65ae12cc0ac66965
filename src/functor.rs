//! Shape-preserving maps, consuming (`LinearFunctor`) and borrowing (`Functor`).

use vstd::prelude::*;
use crate::typeapp::{Ref, Shape, TypeApp, TypeAppMaybeRef, Val, WithTypeArg};

verus! {

/// `f` may be called on every element of `xs`.
pub open spec fn callable_on<A, B, F: Fn(A) -> B>(f: F, xs: Seq<A>) -> bool {
    forall|i: int| 0 <= i < xs.len() ==> #[trigger] f.requires((xs[i],))
}

/// `f` may be called on a reference to every element of `xs`.
pub open spec fn callable_on_ref<A, B, F: Fn(&A) -> B>(f: F, xs: Seq<A>) -> bool {
    forall|i: int| 0 <= i < xs.len() ==> #[trigger] f.requires((&xs[i],))
}

/// `ys` holds, at each position, what `f` returned for the element of `xs` there.
pub open spec fn mapped<A, B, F: Fn(A) -> B>(f: F, xs: Seq<A>, ys: Seq<B>) -> bool {
    &&& ys.len() == xs.len()
    &&& forall|i: int| 0 <= i < xs.len() ==> f.ensures((xs[i],), #[trigger] ys[i])
}

/// `ys` holds, at each position, what `f` returned for a reference to the
/// element of `xs` there.
pub open spec fn mapped_ref<A, B, F: Fn(&A) -> B>(f: F, xs: Seq<A>, ys: Seq<B>) -> bool {
    &&& ys.len() == xs.len()
    &&& forall|i: int| 0 <= i < xs.len() ==> f.ensures((&xs[i],), #[trigger] ys[i])
}

/// Every element of `ys` is a clone of `e`.
pub open spec fn all_cloned<T: Clone>(e: T, ys: Seq<T>) -> bool {
    forall|i: int| 0 <= i < ys.len() ==> cloned(e, #[trigger] ys[i])
}

/// Maps by value: the container is consumed.
pub trait LinearFunctor: Shape {
    /// Applies `f` once to each element, keeping the frame.
    fn lmap<TIn, TOut, F: Fn(TIn) -> TOut>(
        f: F,
        x: <Self as WithTypeArg<TIn>>::Type,
    ) -> (r: <Self as WithTypeArg<TOut>>::Type) where Self: WithTypeArg<TIn> + WithTypeArg<TOut>
        requires
            callable_on(f, <Self as WithTypeArg<TIn>>::elems(x)),
        ensures
            <Self as WithTypeArg<TOut>>::frame(r) == <Self as WithTypeArg<TIn>>::frame(x),
            mapped(f, <Self as WithTypeArg<TIn>>::elems(x), <Self as WithTypeArg<TOut>>::elems(r)),
    ;

    /// Replaces every element with a clone of `e`, keeping the frame.
    fn lmapconst<TIn, TOut: Clone>(
        e: &TOut,
        x: <Self as WithTypeArg<TIn>>::Type,
    ) -> (r: <Self as WithTypeArg<TOut>>::Type) where Self: WithTypeArg<TIn> + WithTypeArg<TOut>
        ensures
            <Self as WithTypeArg<TOut>>::frame(r) == <Self as WithTypeArg<TIn>>::frame(x),
            <Self as WithTypeArg<TOut>>::elems(r).len() == <Self as WithTypeArg<TIn>>::elems(
                x,
            ).len(),
            all_cloned(*e, <Self as WithTypeArg<TOut>>::elems(r)),
    {
        let to_const = |_v: TIn| -> (c: TOut)
            ensures
                cloned(*e, c),
            { e.clone() };
        Self::lmap(to_const, x)
    }
}

/// Maps by reference: the container is left as it was.
pub trait Functor: LinearFunctor {
    /// `b` is a copy of the frame `a`, as cloning its parts makes it.
    spec fn copied_frame(a: <Self as Shape>::Frame, b: <Self as Shape>::Frame) -> bool;

    /// Applies `f` once to a reference to each element; the frame is copied.
    fn fmap<TIn, TOut, F: Fn(&TIn) -> TOut>(
        f: F,
        x: &<Self as WithTypeArg<TIn>>::Type,
    ) -> (r: <Self as WithTypeArg<TOut>>::Type) where Self: WithTypeArg<TIn> + WithTypeArg<TOut>
        requires
            callable_on_ref(f, <Self as WithTypeArg<TIn>>::elems(*x)),
        ensures
            Self::copied_frame(
                <Self as WithTypeArg<TIn>>::frame(*x),
                <Self as WithTypeArg<TOut>>::frame(r),
            ),
            mapped_ref(
                f,
                <Self as WithTypeArg<TIn>>::elems(*x),
                <Self as WithTypeArg<TOut>>::elems(r),
            ),
    ;

    /// Replaces every element with a clone of `e`; the frame is copied.
    fn fmapconst<TIn, TOut: Clone>(
        e: &TOut,
        x: &<Self as WithTypeArg<TIn>>::Type,
    ) -> (r: <Self as WithTypeArg<TOut>>::Type) where Self: WithTypeArg<TIn> + WithTypeArg<TOut>
        ensures
            Self::copied_frame(
                <Self as WithTypeArg<TIn>>::frame(*x),
                <Self as WithTypeArg<TOut>>::frame(r),
            ),
            <Self as WithTypeArg<TOut>>::elems(r).len() == <Self as WithTypeArg<TIn>>::elems(
                *x,
            ).len(),
            all_cloned(*e, <Self as WithTypeArg<TOut>>::elems(r)),
    {
        let to_const = |_v: &TIn| -> (c: TOut)
            ensures
                cloned(*e, c),
            { e.clone() };
        Self::fmap(to_const, x)
    }
}

/// Maps `f` over an owned container: `LinearFunctor::lmap` on its tag.
pub fn lmap<TCon, TIn, TOut, F: Fn(TIn) -> TOut, X: TypeApp<TCon, TIn>>(
    f: F,
    x: X,
) -> (r: <TCon as WithTypeArg<TOut>>::Type) where
    TCon: LinearFunctor + WithTypeArg<TIn> + WithTypeArg<TOut>,

    requires
        callable_on(f, <TCon as WithTypeArg<TIn>>::elems(x.as_app())),
    ensures
        <TCon as WithTypeArg<TOut>>::frame(r) == <TCon as WithTypeArg<TIn>>::frame(x.as_app()),
        mapped(f, <TCon as WithTypeArg<TIn>>::elems(x.as_app()), <TCon as WithTypeArg<TOut>>::elems(r)),
{
    TCon::lmap(f, x.into_val())
}

/// Replaces every element of an owned container with a clone of `e`.
pub fn lmapconst<TCon, TIn, TOut: Clone, X: TypeApp<TCon, TIn>>(
    e: &TOut,
    x: X,
) -> (r: <TCon as WithTypeArg<TOut>>::Type) where
    TCon: LinearFunctor + WithTypeArg<TIn> + WithTypeArg<TOut>,

    ensures
        <TCon as WithTypeArg<TOut>>::frame(r) == <TCon as WithTypeArg<TIn>>::frame(x.as_app()),
        <TCon as WithTypeArg<TOut>>::elems(r).len() == <TCon as WithTypeArg<TIn>>::elems(
            x.as_app(),
        ).len(),
        all_cloned(*e, <TCon as WithTypeArg<TOut>>::elems(r)),
{
    TCon::lmapconst::<TIn, TOut>(e, x.into_val())
}

/// Maps `f` over a borrowed container: `Functor::fmap` on its tag.
pub fn fmap<TCon, TIn, TOut, F: Fn(&TIn) -> TOut, X: TypeApp<TCon, TIn>>(
    f: F,
    x: &X,
) -> (r: <TCon as WithTypeArg<TOut>>::Type) where
    TCon: Functor + WithTypeArg<TIn> + WithTypeArg<TOut>,

    requires
        callable_on_ref(f, <TCon as WithTypeArg<TIn>>::elems(x.as_app())),
    ensures
        TCon::copied_frame(
            <TCon as WithTypeArg<TIn>>::frame(x.as_app()),
            <TCon as WithTypeArg<TOut>>::frame(r),
        ),
        mapped_ref(
            f,
            <TCon as WithTypeArg<TIn>>::elems(x.as_app()),
            <TCon as WithTypeArg<TOut>>::elems(r),
        ),
{
    TCon::fmap(f, x.into_ref())
}

/// Replaces every element of a borrowed container with a clone of `e`.
pub fn fmapconst<TCon, TIn, TOut: Clone, X: TypeApp<TCon, TIn>>(
    e: &TOut,
    x: &X,
) -> (r: <TCon as WithTypeArg<TOut>>::Type) where
    TCon: Functor + WithTypeArg<TIn> + WithTypeArg<TOut>,

    ensures
        TCon::copied_frame(
            <TCon as WithTypeArg<TIn>>::frame(x.as_app()),
            <TCon as WithTypeArg<TOut>>::frame(r),
        ),
        <TCon as WithTypeArg<TOut>>::elems(r).len() == <TCon as WithTypeArg<TIn>>::elems(
            x.as_app(),
        ).len(),
        all_cloned(*e, <TCon as WithTypeArg<TOut>>::elems(r)),
{
    TCon::fmapconst::<TIn, TOut>(e, x.into_ref())
}

/// `f` may be called on a clone of every element of `xs`.
pub open spec fn callable_on_clones<A: Clone, B, F: Fn(A) -> B>(f: F, xs: Seq<A>) -> bool {
    forall|i: int, c: A|
        #![trigger xs[i], f.requires((c,))]
        0 <= i < xs.len() && cloned(xs[i], c) ==> f.requires((c,))
}

/// `ys` holds, at each position, what `f` returned for a clone of the
/// element of `xs` there.
pub open spec fn mapped_clones<A: Clone, B, F: Fn(A) -> B>(f: F, xs: Seq<A>, ys: Seq<B>) -> bool {
    &&& ys.len() == xs.len()
    &&& forall|i: int| 0 <= i < xs.len() ==> returned_for_clone(f, xs[i], #[trigger] ys[i])
}

/// `b` is what `f` returned for some clone of `a`.
pub open spec fn returned_for_clone<A: Clone, B, F: Fn(A) -> B>(f: F, a: A, b: B) -> bool {
    exists|c: A| cloned(a, c) && #[trigger] f.ensures((c,), b)
}

/// `x.mapop(f)`: one spelling of a map, whether `x` is owned (`TIsRef = Val`)
/// or borrowed (`TIsRef = Ref`) and whether `f` takes elements by value
/// (`TFuncIn = TIn`) or by reference (`TFuncIn = &TIn`).
pub trait MapExt<TCon, F, TIn, TOut, TFuncIn, TIsRef>: TypeAppMaybeRef<TCon, TIn, TIsRef> where
    TCon: WithTypeArg<TIn> + WithTypeArg<TOut>,
    F: Fn(TFuncIn) -> TOut,
 {
    /// `f` may be called as the map calls it on `self`.
    spec fn map_callable(self, f: F) -> bool;

    /// `r` is what mapping `f` over `self` gives.
    spec fn map_result(self, f: F, r: <TCon as WithTypeArg<TOut>>::Type) -> bool;

    fn mapop(self, f: F) -> (r: <TCon as WithTypeArg<TOut>>::Type)
        requires
            self.map_callable(f),
        ensures
            self.map_result(f, r),
    ;
}

impl<TCon, TIn, TOut, F, X> MapExt<TCon, F, TIn, TOut, TIn, Val> for X where
    TCon: LinearFunctor + WithTypeArg<TIn> + WithTypeArg<TOut>,
    X: TypeApp<TCon, TIn>,
    F: Fn(TIn) -> TOut,
 {
    open spec fn map_callable(self, f: F) -> bool {
        callable_on(f, <TCon as WithTypeArg<TIn>>::elems(self.as_app()))
    }

    open spec fn map_result(self, f: F, r: <TCon as WithTypeArg<TOut>>::Type) -> bool {
        &&& <TCon as WithTypeArg<TOut>>::frame(r) == <TCon as WithTypeArg<TIn>>::frame(
            self.as_app(),
        )
        &&& mapped(f, <TCon as WithTypeArg<TIn>>::elems(self.as_app()), <TCon as WithTypeArg<TOut>>::elems(r))
    }

    fn mapop(self, f: F) -> (r: <TCon as WithTypeArg<TOut>>::Type) {
        lmap(f, self)
    }
}

impl<'b, TCon, TIn, TOut, F, X> MapExt<TCon, F, TIn, TOut, &'b TIn, Val> for X where
    TCon: LinearFunctor + WithTypeArg<TIn> + WithTypeArg<TOut>,
    X: TypeApp<TCon, TIn>,
    F: Fn(&TIn) -> TOut,
 {
    open spec fn map_callable(self, f: F) -> bool {
        callable_on_ref(f, <TCon as WithTypeArg<TIn>>::elems(self.as_app()))
    }

    open spec fn map_result(self, f: F, r: <TCon as WithTypeArg<TOut>>::Type) -> bool {
        &&& <TCon as WithTypeArg<TOut>>::frame(r) == <TCon as WithTypeArg<TIn>>::frame(
            self.as_app(),
        )
        &&& mapped_ref(
            f,
            <TCon as WithTypeArg<TIn>>::elems(self.as_app()),
            <TCon as WithTypeArg<TOut>>::elems(r),
        )
    }

    fn mapop(self, f: F) -> (r: <TCon as WithTypeArg<TOut>>::Type) {
        let fr = &f;
        let g = |y: TIn| -> (o: TOut)
            requires
                fr.requires((&y,)),
            ensures
                fr.ensures((&y,), o),
            { fr(&y) };
        let r = lmap(g, self);
        proof {
            let xs = <TCon as WithTypeArg<TIn>>::elems(self.as_app());
            let rs = <TCon as WithTypeArg<TOut>>::elems(r);
            assert forall|i: int| 0 <= i < xs.len() implies f.ensures((&xs[i],), #[trigger] rs[i]) by {
                assert(g.ensures((xs[i],), rs[i]));
            }
        }
        r
    }
}

impl<'a, TCon, TIn: Clone, TOut, F, X> MapExt<TCon, F, TIn, TOut, TIn, Ref> for &'a X where
    TCon: Functor + WithTypeArg<TIn> + WithTypeArg<TOut>,
    X: TypeApp<TCon, TIn>,
    F: Fn(TIn) -> TOut,
 {
    open spec fn map_callable(self, f: F) -> bool {
        callable_on_clones(f, <TCon as WithTypeArg<TIn>>::elems(self.as_app()))
    }

    open spec fn map_result(self, f: F, r: <TCon as WithTypeArg<TOut>>::Type) -> bool {
        &&& TCon::copied_frame(
            <TCon as WithTypeArg<TIn>>::frame(self.as_app()),
            <TCon as WithTypeArg<TOut>>::frame(r),
        )
        &&& mapped_clones(
            f,
            <TCon as WithTypeArg<TIn>>::elems(self.as_app()),
            <TCon as WithTypeArg<TOut>>::elems(r),
        )
    }

    fn mapop(self, f: F) -> (r: <TCon as WithTypeArg<TOut>>::Type) {
        let ghost xs = <TCon as WithTypeArg<TIn>>::elems(self.as_app());
        let fr = &f;
        let g = |y: &TIn| -> (o: TOut)
            requires
                forall|c: TIn| cloned(*y, c) ==> fr.requires((c,)),
            ensures
                exists|c: TIn| cloned(*y, c) && fr.ensures((c,), o),
            {
                let c = y.clone();
                assert(cloned(*y, c));
                fr(c)
            };
        assert forall|i: int| 0 <= i < xs.len() implies #[trigger] g.requires((&xs[i],)) by {
            assert forall|c: TIn| cloned(xs[i], c) implies f.requires((c,)) by {
                assert(f.requires((c,)));
            }
        }
        let r = fmap(g, self);
        proof {
            let rs = <TCon as WithTypeArg<TOut>>::elems(r);
            assert forall|i: int| 0 <= i < xs.len() implies returned_for_clone(
                f,
                xs[i],
                #[trigger] rs[i],
            ) by {
                assert(g.ensures((&xs[i],), rs[i]));
            }
        }
        r
    }
}

impl<'a, 'b, TCon, TIn, TOut, F, X> MapExt<TCon, F, TIn, TOut, &'b TIn, Ref> for &'a X where
    TCon: Functor + WithTypeArg<TIn> + WithTypeArg<TOut>,
    X: TypeApp<TCon, TIn>,
    F: Fn(&TIn) -> TOut,
 {
    open spec fn map_callable(self, f: F) -> bool {
        callable_on_ref(f, <TCon as WithTypeArg<TIn>>::elems(self.as_app()))
    }

    open spec fn map_result(self, f: F, r: <TCon as WithTypeArg<TOut>>::Type) -> bool {
        &&& TCon::copied_frame(
            <TCon as WithTypeArg<TIn>>::frame(self.as_app()),
            <TCon as WithTypeArg<TOut>>::frame(r),
        )
        &&& mapped_ref(
            f,
            <TCon as WithTypeArg<TIn>>::elems(self.as_app()),
            <TCon as WithTypeArg<TOut>>::elems(r),
        )
    }

    fn mapop(self, f: F) -> (r: <TCon as WithTypeArg<TOut>>::Type) {
        fmap(f, self)
    }
}

/// `map(f, x)`: the free-function spelling of `x.mapop(f)`.
pub fn map<TCon, F, TIn, TOut, TFuncIn, TIsRef, X>(f: F, x: X) -> (r: <TCon as WithTypeArg<
    TOut,
>>::Type) where
    TCon: WithTypeArg<TIn> + WithTypeArg<TOut>,
    F: Fn(TFuncIn) -> TOut,
    X: MapExt<TCon, F, TIn, TOut, TFuncIn, TIsRef>,

    requires
        x.map_callable(f),
    ensures
        x.map_result(f, r),
{
    x.mapop(f)
}

} // verus!
