//! Sequential composition, where the next step depends on the unwrapped
//! value, and flattening one level of nesting.

use vstd::prelude::*;
use crate::applicative::{Applicative, SingletonApplicative};
use crate::functor::{callable_on_ref, Functor};
use crate::typeapp::{Shape, TypeApp, WithTypeArg};

verus! {

/// The elements of the containers `ys`, one container after another.
pub open spec fn joined<C: WithTypeArg<T>, T>(ys: Seq<<C as WithTypeArg<T>>::Type>) -> Seq<T> {
    ys.map_values(|y: <C as WithTypeArg<T>>::Type| <C as WithTypeArg<T>>::elems(y)).flatten()
}

/// The frames of the containers `ys`.
pub open spec fn frames<C: WithTypeArg<T>, T>(ys: Seq<<C as WithTypeArg<T>>::Type>) -> Seq<
    <C as Shape>::Frame,
> {
    ys.map_values(|y: <C as WithTypeArg<T>>::Type| <C as WithTypeArg<T>>::frame(y))
}

/// `r` is `x` bound through steps that returned `ys`, one container for each
/// element of `x`: the elements of `ys` in order, in a frame copied from the
/// one that `x` and `ys` give together.
pub open spec fn bound<C, A, B>(
    x: <C as WithTypeArg<A>>::Type,
    ys: Seq<<C as WithTypeArg<B>>::Type>,
    r: <C as WithTypeArg<B>>::Type,
) -> bool where C: Functor + WithTypeArg<A> + WithTypeArg<B> {
    &&& ys.len() == <C as WithTypeArg<A>>::elems(x).len()
    &&& <C as WithTypeArg<B>>::elems(r) == joined::<C, B>(ys)
    &&& C::copied_frame(
        C::bind_frame(<C as WithTypeArg<A>>::frame(x), frames::<C, B>(ys)),
        <C as WithTypeArg<B>>::frame(r),
    )
}

/// `ys` holds, at each position, what `f` returned for a reference to the
/// element of `xs` there.
pub open spec fn steps<A, Y, F: Fn(&A) -> Y>(f: F, xs: Seq<A>, ys: Seq<Y>) -> bool {
    &&& ys.len() == xs.len()
    &&& forall|i: int| 0 <= i < xs.len() ==> f.ensures((&xs[i],), #[trigger] ys[i])
}

/// Every element of `ys` is a clone of `y`.
pub open spec fn all_clones<Y: Clone>(y: Y, ys: Seq<Y>) -> bool {
    forall|i: int| 0 <= i < ys.len() ==> cloned(y, #[trigger] ys[i])
}

/// Every element of `ys` is a clone of the element of `xs` at its position.
pub open spec fn clones_of<Y: Clone>(xs: Seq<Y>, ys: Seq<Y>) -> bool {
    &&& ys.len() == xs.len()
    &&& forall|i: int| 0 <= i < xs.len() ==> cloned(xs[i], #[trigger] ys[i])
}

/// By-reference sequencing.
pub trait Monad: Applicative {
    /// Runs `f` on a reference to each element and joins what it returns.
    fn bind<TIn, TOut, F: Fn(&TIn) -> <Self as WithTypeArg<TOut>>::Type>(
        x: &<Self as WithTypeArg<TIn>>::Type,
        f: F,
    ) -> (r: <Self as WithTypeArg<TOut>>::Type) where Self: WithTypeArg<TIn> + WithTypeArg<TOut>
        requires
            callable_on_ref(f, <Self as WithTypeArg<TIn>>::elems(*x)),
        ensures
            exists|ys: Seq<<Self as WithTypeArg<TOut>>::Type>|
                #[trigger] bound::<Self, TIn, TOut>(*x, ys, r) && steps(
                    f,
                    <Self as WithTypeArg<TIn>>::elems(*x),
                    ys,
                ),
    ;

    /// Runs `y` once for each element of `x`, ignoring the element.
    fn bind_ignore<TIn, TOut>(
        x: &<Self as WithTypeArg<TIn>>::Type,
        y: &<Self as WithTypeArg<TOut>>::Type,
    ) -> (r: <Self as WithTypeArg<TOut>>::Type) where
        Self: WithTypeArg<TIn> + WithTypeArg<TOut>,
        <Self as WithTypeArg<TOut>>::Type: Clone,

        ensures
            exists|ys: Seq<<Self as WithTypeArg<TOut>>::Type>|
                #[trigger] bound::<Self, TIn, TOut>(*x, ys, r) && all_clones(*y, ys),
    {
        let again = |_v: &TIn| -> (o: <Self as WithTypeArg<TOut>>::Type)
            ensures
                cloned(*y, o),
            { y.clone() };
        let r = Self::bind::<TIn, TOut, _>(x, again);
        proof {
            let ys = choose|ys: Seq<<Self as WithTypeArg<TOut>>::Type>|
                #[trigger] bound::<Self, TIn, TOut>(*x, ys, r) && steps(
                    again,
                    <Self as WithTypeArg<TIn>>::elems(*x),
                    ys,
                );
            let xs = <Self as WithTypeArg<TIn>>::elems(*x);
            assert forall|i: int| 0 <= i < ys.len() implies cloned(*y, #[trigger] ys[i]) by {
                assert(again.ensures((&xs[i],), ys[i]));
            }
            assert(bound::<Self, TIn, TOut>(*x, ys, r) && all_clones(*y, ys));
        }
        r
    }

    /// Flattens one level of nesting.
    fn fjoin<T>(x: &<Self as WithTypeArg<<Self as WithTypeArg<T>>::Type>>::Type) -> (r: <Self as WithTypeArg<T>>::Type) where
        Self: WithTypeArg<T> + WithTypeArg<<Self as WithTypeArg<T>>::Type>,
        <Self as WithTypeArg<T>>::Type: Clone,

        ensures
            exists|ys: Seq<<Self as WithTypeArg<T>>::Type>|
                #[trigger] bound::<Self, <Self as WithTypeArg<T>>::Type, T>(*x, ys, r) && clones_of(
                    <Self as WithTypeArg<<Self as WithTypeArg<T>>::Type>>::elems(*x),
                    ys,
                ),
    {
        let inner = |v: &<Self as WithTypeArg<T>>::Type| -> (o: <Self as WithTypeArg<T>>::Type)
            ensures
                cloned(*v, o),
            { v.clone() };
        let r = Self::bind::<<Self as WithTypeArg<T>>::Type, T, _>(x, inner);
        proof {
            let xs = <Self as WithTypeArg<<Self as WithTypeArg<T>>::Type>>::elems(*x);
            let ys = choose|ys: Seq<<Self as WithTypeArg<T>>::Type>|
                #[trigger] bound::<Self, <Self as WithTypeArg<T>>::Type, T>(*x, ys, r) && steps(
                    inner,
                    xs,
                    ys,
                );
            assert forall|i: int| 0 <= i < xs.len() implies cloned(xs[i], #[trigger] ys[i]) by {
                assert(inner.ensures((&xs[i],), ys[i]));
            }
            assert(bound::<Self, <Self as WithTypeArg<T>>::Type, T>(*x, ys, r) && clones_of(xs, ys));
        }
        r
    }
}

/// By-value sequencing, for shapes that hold at most one element.
pub trait LinearMonad: SingletonApplicative {
    /// Runs `f` on the element, if there is one; otherwise passes the empty
    /// container on with its frame.
    fn lbind<TIn, TOut, F: FnOnce(TIn) -> <Self as WithTypeArg<TOut>>::Type>(
        x: <Self as WithTypeArg<TIn>>::Type,
        f: F,
    ) -> (r: <Self as WithTypeArg<TOut>>::Type) where Self: WithTypeArg<TIn> + WithTypeArg<TOut>
        requires
            <Self as WithTypeArg<TIn>>::elems(x).len() == 1 ==> f.requires(
                (<Self as WithTypeArg<TIn>>::elems(x)[0],),
            ),
        ensures
            <Self as WithTypeArg<TIn>>::elems(x).len() == 1 ==> f.ensures(
                (<Self as WithTypeArg<TIn>>::elems(x)[0],),
                r,
            ),
            <Self as WithTypeArg<TIn>>::elems(x).len() == 0 ==> <Self as WithTypeArg<
                TOut,
            >>::elems(r).len() == 0 && <Self as WithTypeArg<TOut>>::frame(r) == <Self as WithTypeArg<
                TIn,
            >>::frame(x),
    ;

    /// A clone of `y` if `x` holds an element; otherwise `x` emptied, with its frame.
    fn lbind_ignore<TIn, TOut>(
        x: <Self as WithTypeArg<TIn>>::Type,
        y: &<Self as WithTypeArg<TOut>>::Type,
    ) -> (r: <Self as WithTypeArg<TOut>>::Type) where
        Self: WithTypeArg<TIn> + WithTypeArg<TOut>,
        <Self as WithTypeArg<TOut>>::Type: Clone,

        ensures
            <Self as WithTypeArg<TIn>>::elems(x).len() == 1 ==> cloned(*y, r),
            <Self as WithTypeArg<TIn>>::elems(x).len() == 0 ==> <Self as WithTypeArg<
                TOut,
            >>::elems(r).len() == 0 && <Self as WithTypeArg<TOut>>::frame(r) == <Self as WithTypeArg<
                TIn,
            >>::frame(x),
    {
        let again = |_v: TIn| -> (o: <Self as WithTypeArg<TOut>>::Type)
            ensures
                cloned(*y, o),
            { y.clone() };
        Self::lbind::<TIn, TOut, _>(x, again)
    }

    /// Flattens one level of nesting: the inner container if there is one.
    fn ljoin<T>(x: <Self as WithTypeArg<<Self as WithTypeArg<T>>::Type>>::Type) -> (r: <Self as WithTypeArg<T>>::Type) where
        Self: WithTypeArg<T> + WithTypeArg<<Self as WithTypeArg<T>>::Type>,

        ensures
            <Self as WithTypeArg<<Self as WithTypeArg<T>>::Type>>::elems(x).len() == 1 ==> r
                == <Self as WithTypeArg<<Self as WithTypeArg<T>>::Type>>::elems(x)[0],
            <Self as WithTypeArg<<Self as WithTypeArg<T>>::Type>>::elems(x).len() == 0 ==> <Self as WithTypeArg<
                T,
            >>::elems(r).len() == 0 && <Self as WithTypeArg<T>>::frame(r) == <Self as WithTypeArg<
                <Self as WithTypeArg<T>>::Type,
            >>::frame(x),
    {
        let inner = |v: <Self as WithTypeArg<T>>::Type| -> (o: <Self as WithTypeArg<T>>::Type)
            ensures
                o == v,
            { v };
        Self::lbind::<<Self as WithTypeArg<T>>::Type, T, _>(x, inner)
    }
}

/// The containers `ys` seen as projections of `C` at `T`.
pub open spec fn apps<C: WithTypeArg<T>, T, X: TypeApp<C, T>>(ys: Seq<X>) -> Seq<
    <C as WithTypeArg<T>>::Type,
> {
    ys.map_values(|y: X| y.as_app())
}

/// Binds a borrowed projection through `f`, whose results may be any type
/// that witnesses the projection.
pub fn bind_c<TCon, TIn, TOut, F: Fn(&TIn) -> TResult, TResult: TypeApp<TCon, TOut>>(
    x: &<TCon as WithTypeArg<TIn>>::Type,
    f: F,
) -> (r: TResult) where TCon: Monad + WithTypeArg<TIn> + WithTypeArg<TOut>
    requires
        callable_on_ref(f, <TCon as WithTypeArg<TIn>>::elems(*x)),
    ensures
        exists|ys: Seq<TResult>|
            #[trigger] bound::<TCon, TIn, TOut>(*x, apps::<TCon, TOut, TResult>(ys), r.as_app())
                && steps(f, <TCon as WithTypeArg<TIn>>::elems(*x), ys),
{
    let ghost xs = <TCon as WithTypeArg<TIn>>::elems(*x);
    let fr = &f;
    let step = |y: &TIn| -> (o: <TCon as WithTypeArg<TOut>>::Type)
        requires
            fr.requires((y,)),
        ensures
            exists|t: TResult| fr.ensures((y,), t) && t.as_app() == o,
        {
            let t = fr(y);
            t.into_val()
        };
    let r0 = TCon::bind::<TIn, TOut, _>(x, step);
    let r = TResult::from_val(r0);
    proof {
        let ys0 = choose|ys0: Seq<<TCon as WithTypeArg<TOut>>::Type>|
            #[trigger] bound::<TCon, TIn, TOut>(*x, ys0, r0) && steps(step, xs, ys0);
        let ys = Seq::new(
            ys0.len(),
            |i: int| choose|t: TResult| f.ensures((&xs[i],), t) && t.as_app() == ys0[i],
        );
        assert forall|i: int| 0 <= i < ys0.len() implies f.ensures((&xs[i],), #[trigger] ys[i])
            && ys[i].as_app() == ys0[i] by {
            assert(step.ensures((&xs[i],), ys0[i]));
        }
        assert(apps::<TCon, TOut, TResult>(ys) =~= ys0);
        assert(bound::<TCon, TIn, TOut>(*x, apps::<TCon, TOut, TResult>(ys), r.as_app()) && steps(
            f,
            xs,
            ys,
        ));
    }
    r
}

/// `bind(x, f)`: runs `f` on a reference to each element of `x` and joins
/// what it returns.
pub fn bind<TCon, TIn, TOut, TArg: TypeApp<TCon, TIn>, F: Fn(&TIn) -> TResult, TResult: TypeApp<
    TCon,
    TOut,
>>(x: &TArg, f: F) -> (r: TResult) where TCon: Monad + WithTypeArg<TIn> + WithTypeArg<TOut>
    requires
        callable_on_ref(f, <TCon as WithTypeArg<TIn>>::elems(x.as_app())),
    ensures
        exists|ys: Seq<TResult>|
            #[trigger] bound::<TCon, TIn, TOut>(
                x.as_app(),
                apps::<TCon, TOut, TResult>(ys),
                r.as_app(),
            ) && steps(f, <TCon as WithTypeArg<TIn>>::elems(x.as_app()), ys),
{
    bind_c(x.into_ref(), f)
}

/// `bind_ignore(x, y)`: runs `y` once for each element of `x`.
pub fn bind_ignore<TCon, TIn, TOut, TIgnoreArg: TypeApp<TCon, TIn>, TResult: TypeApp<TCon, TOut>>(
    x: &TIgnoreArg,
    y: &TResult,
) -> (r: TResult) where
    TCon: Monad + WithTypeArg<TIn> + WithTypeArg<TOut>,
    <TCon as WithTypeArg<TOut>>::Type: Clone,

    ensures
        exists|ys: Seq<<TCon as WithTypeArg<TOut>>::Type>|
            #[trigger] bound::<TCon, TIn, TOut>(x.as_app(), ys, r.as_app()) && all_clones(
                y.as_app(),
                ys,
            ),
{
    TResult::from_val(TCon::bind_ignore::<TIn, TOut>(x.into_ref(), y.into_ref()))
}

/// `fjoin(x)`: flattens one level of nesting, cloning each inner container.
pub fn fjoin<TCon, T, TInner: TypeApp<TCon, T>, TArg: TypeApp<TCon, TInner>>(x: &TArg) -> (r: <TCon as WithTypeArg<T>>::Type) where
    TCon: Monad + WithTypeArg<T> + WithTypeArg<TInner>,
    <TCon as WithTypeArg<T>>::Type: Clone,

    ensures
        exists|ys: Seq<<TCon as WithTypeArg<T>>::Type>|
            #[trigger] bound::<TCon, TInner, T>(x.as_app(), ys, r) && clones_of(
                apps::<TCon, T, TInner>(<TCon as WithTypeArg<TInner>>::elems(x.as_app())),
                ys,
            ),
{
    let ghost xs = <TCon as WithTypeArg<TInner>>::elems(x.as_app());
    let inner = |v: &TInner| -> (o: <TCon as WithTypeArg<T>>::Type)
        ensures
            cloned(v.as_app(), o),
        { v.into_ref().clone() };
    let r = TCon::bind::<TInner, T, _>(x.into_ref(), inner);
    proof {
        let ys = choose|ys: Seq<<TCon as WithTypeArg<T>>::Type>|
            #[trigger] bound::<TCon, TInner, T>(x.as_app(), ys, r) && steps(inner, xs, ys);
        assert forall|i: int| 0 <= i < xs.len() implies cloned(
            apps::<TCon, T, TInner>(xs)[i],
            #[trigger] ys[i],
        ) by {
            assert(inner.ensures((&xs[i],), ys[i]));
        }
        assert(bound::<TCon, TInner, T>(x.as_app(), ys, r) && clones_of(
            apps::<TCon, T, TInner>(xs),
            ys,
        ));
    }
    r
}

/// `lbind(x, f)`: runs `f` on the element of an owned container, if there is one.
pub fn lbind<TCon, TIn, TOut, X: TypeApp<TCon, TIn>, F: FnOnce(TIn) -> TResult, TResult: TypeApp<
    TCon,
    TOut,
>>(x: X, f: F) -> (r: TResult) where TCon: LinearMonad + WithTypeArg<TIn> + WithTypeArg<TOut>
    requires
        <TCon as WithTypeArg<TIn>>::elems(x.as_app()).len() == 1 ==> f.requires(
            (<TCon as WithTypeArg<TIn>>::elems(x.as_app())[0],),
        ),
    ensures
        <TCon as WithTypeArg<TIn>>::elems(x.as_app()).len() == 1 ==> exists|t: TResult|
            f.ensures((<TCon as WithTypeArg<TIn>>::elems(x.as_app())[0],), t) && #[trigger] t.as_app()
                == r.as_app(),
        <TCon as WithTypeArg<TIn>>::elems(x.as_app()).len() == 0 ==> <TCon as WithTypeArg<
            TOut,
        >>::elems(r.as_app()).len() == 0 && <TCon as WithTypeArg<TOut>>::frame(r.as_app())
            == <TCon as WithTypeArg<TIn>>::frame(x.as_app()),
{
    let step = move |y: TIn| -> (o: <TCon as WithTypeArg<TOut>>::Type)
        requires
            f.requires((y,)),
        ensures
            exists|t: TResult| f.ensures((y,), t) && t.as_app() == o,
        {
            let t = f(y);
            t.into_val()
        };
    TResult::from_val(TCon::lbind::<TIn, TOut, _>(x.into_val(), step))
}

/// `lbind_ignore(x, y)`: a clone of `y` if the owned `x` holds an element.
pub fn lbind_ignore<TCon, TIn, TOut, X: TypeApp<TCon, TIn>, TResult: TypeApp<TCon, TOut>>(
    x: X,
    y: &TResult,
) -> (r: TResult) where
    TCon: LinearMonad + WithTypeArg<TIn> + WithTypeArg<TOut>,
    <TCon as WithTypeArg<TOut>>::Type: Clone,

    ensures
        <TCon as WithTypeArg<TIn>>::elems(x.as_app()).len() == 1 ==> cloned(
            y.as_app(),
            r.as_app(),
        ),
        <TCon as WithTypeArg<TIn>>::elems(x.as_app()).len() == 0 ==> <TCon as WithTypeArg<
            TOut,
        >>::elems(r.as_app()).len() == 0 && <TCon as WithTypeArg<TOut>>::frame(r.as_app())
            == <TCon as WithTypeArg<TIn>>::frame(x.as_app()),
{
    TResult::from_val(TCon::lbind_ignore::<TIn, TOut>(x.into_val(), y.into_ref()))
}

} // verus!
