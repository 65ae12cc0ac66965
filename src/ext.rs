//! Method-call spellings of the free functions: `f.fmap(&x)`, `x.bind(f)`, ...

use vstd::prelude::*;
use crate::applicative::{ap, appliable, applied, lap, lift, Applicative, Lift, SingletonApplicative};
use crate::functor::{callable_on, callable_on_ref, fmap, lmap, mapped, mapped_ref, Functor, LinearFunctor};
use crate::monad::{all_clones, apps, bind, bind_ignore, bound, clones_of, fjoin, lbind, lbind_ignore, steps, LinearMonad, Monad};
use crate::typeapp::{TypeApp, WithTypeArg};

verus! {

/// Methods that borrow their receiver.
pub trait UnsizedExt {
    /// `f.ap(&x)`: `ap(f, x)`.
    fn ap<TCon, TIn, TOut, TFunc: Fn(&TIn) -> TOut, X: TypeApp<TCon, TIn>>(&self, x: &X) -> (r: <TCon as WithTypeArg<TOut>>::Type) where
        Self: TypeApp<TCon, TFunc>,
        TCon: Applicative + WithTypeArg<TFunc> + WithTypeArg<TIn> + WithTypeArg<TOut>,

        requires
            appliable(
                <TCon as WithTypeArg<TFunc>>::elems(self.as_app()),
                <TCon as WithTypeArg<TIn>>::elems(x.as_app()),
            ),
        ensures
            TCon::copied_frame(
                TCon::zip_frame(
                    <TCon as WithTypeArg<TFunc>>::frame(self.as_app()),
                    <TCon as WithTypeArg<TIn>>::frame(x.as_app()),
                ),
                <TCon as WithTypeArg<TOut>>::frame(r),
            ),
            applied(
                <TCon as WithTypeArg<TFunc>>::elems(self.as_app()),
                <TCon as WithTypeArg<TIn>>::elems(x.as_app()),
                <TCon as WithTypeArg<TOut>>::elems(r),
            ),
    {
        ap(self, x)
    }

    /// `x.bind(f)`: `bind(x, f)`.
    fn bind<TCon, TIn, TOut, F: Fn(&TIn) -> TResult, TResult: TypeApp<TCon, TOut>>(&self, f: F) -> (r: TResult) where
        TCon: Monad + WithTypeArg<TIn> + WithTypeArg<TOut>,
        Self: TypeApp<TCon, TIn>,

        requires
            callable_on_ref(f, <TCon as WithTypeArg<TIn>>::elems(self.as_app())),
        ensures
            exists|ys: Seq<TResult>|
                #[trigger] bound::<TCon, TIn, TOut>(
                    self.as_app(),
                    apps::<TCon, TOut, TResult>(ys),
                    r.as_app(),
                ) && steps(f, <TCon as WithTypeArg<TIn>>::elems(self.as_app()), ys),
    {
        bind(self, f)
    }

    /// `x.bind_ignore(&y)`: `bind_ignore(x, y)`.
    fn bind_ignore<TCon, TIn, TOut, TResult: TypeApp<TCon, TOut>>(&self, y: &TResult) -> (r: TResult) where
        TCon: Monad + WithTypeArg<TIn> + WithTypeArg<TOut>,
        Self: TypeApp<TCon, TIn>,
        <TCon as WithTypeArg<TOut>>::Type: Clone,

        ensures
            exists|ys: Seq<<TCon as WithTypeArg<TOut>>::Type>|
                #[trigger] bound::<TCon, TIn, TOut>(self.as_app(), ys, r.as_app()) && all_clones(
                    y.as_app(),
                    ys,
                ),
    {
        bind_ignore(self, y)
    }

    /// `x.fjoin()`: `fjoin(x)`.
    fn fjoin<TCon, T, TInner: TypeApp<TCon, T>>(&self) -> (r: <TCon as WithTypeArg<T>>::Type) where
        TCon: Monad + WithTypeArg<T> + WithTypeArg<TInner>,
        Self: TypeApp<TCon, TInner>,
        <TCon as WithTypeArg<T>>::Type: Clone,

        ensures
            exists|ys: Seq<<TCon as WithTypeArg<T>>::Type>|
                #[trigger] bound::<TCon, TInner, T>(self.as_app(), ys, r) && clones_of(
                    apps::<TCon, T, TInner>(<TCon as WithTypeArg<TInner>>::elems(self.as_app())),
                    ys,
                ),
    {
        fjoin::<TCon, T, TInner, Self>(self)
    }
}

impl<X> UnsizedExt for X {
}

/// Methods that take their receiver by value.
pub trait SizedExt: Sized {
    /// `v.lift::<TCon>()`: `lift::<TCon, _>(v)`.
    fn lift<TCon>(self) -> (r: <TCon as WithTypeArg<Self>>::Type) where
        TCon: Lift + WithTypeArg<Self>,

        ensures
            <TCon as WithTypeArg<Self>>::elems(r) == seq![self],
            <TCon as WithTypeArg<Self>>::frame(r) == TCon::pure_frame(),
    {
        lift::<TCon, Self>(self)
    }

    /// `f.lap(x)`: `lap(f, x)`.
    fn lap<TCon, TIn, TOut, TFunc: Fn(TIn) -> TOut, X: TypeApp<TCon, TIn>>(self, x: X) -> (r: <TCon as WithTypeArg<TOut>>::Type) where
        TCon: SingletonApplicative + WithTypeArg<TFunc> + WithTypeArg<TIn> + WithTypeArg<TOut>,
        Self: TypeApp<TCon, TFunc>,

        requires
            <TCon as WithTypeArg<TFunc>>::elems(self.as_app()).len() == 1 && <TCon as WithTypeArg<
                TIn,
            >>::elems(x.as_app()).len() == 1 ==> <TCon as WithTypeArg<TFunc>>::elems(
                self.as_app(),
            )[0].requires((<TCon as WithTypeArg<TIn>>::elems(x.as_app())[0],)),
        ensures
            <TCon as WithTypeArg<TOut>>::frame(r) == TCon::zip_frame(
                <TCon as WithTypeArg<TFunc>>::frame(self.as_app()),
                <TCon as WithTypeArg<TIn>>::frame(x.as_app()),
            ),
            <TCon as WithTypeArg<TOut>>::elems(r).len() == <TCon as WithTypeArg<TFunc>>::elems(
                self.as_app(),
            ).len() * <TCon as WithTypeArg<TIn>>::elems(x.as_app()).len(),
            <TCon as WithTypeArg<TOut>>::elems(r).len() == 1 ==> <TCon as WithTypeArg<
                TFunc,
            >>::elems(self.as_app())[0].ensures(
                (<TCon as WithTypeArg<TIn>>::elems(x.as_app())[0],),
                <TCon as WithTypeArg<TOut>>::elems(r)[0],
            ),
    {
        lap::<TCon, TIn, TOut, TFunc, Self, X>(self, x)
    }

    /// `f.lmap(x)`: `lmap(f, x)`.
    fn lmap<TCon, TIn, TOut, X: TypeApp<TCon, TIn>>(self, x: X) -> (r: <TCon as WithTypeArg<TOut>>::Type) where
        TCon: LinearFunctor + WithTypeArg<TIn> + WithTypeArg<TOut>,
        Self: Fn(TIn) -> TOut,

        requires
            callable_on(self, <TCon as WithTypeArg<TIn>>::elems(x.as_app())),
        ensures
            <TCon as WithTypeArg<TOut>>::frame(r) == <TCon as WithTypeArg<TIn>>::frame(x.as_app()),
            mapped(self, <TCon as WithTypeArg<TIn>>::elems(x.as_app()), <TCon as WithTypeArg<TOut>>::elems(r)),
    {
        lmap(self, x)
    }

    /// `x.lmapop(f)`: `lmap(f, x)`.
    fn lmapop<TCon, TIn, TOut, F: Fn(TIn) -> TOut>(self, f: F) -> (r: <TCon as WithTypeArg<TOut>>::Type) where
        TCon: LinearFunctor + WithTypeArg<TIn> + WithTypeArg<TOut>,
        Self: TypeApp<TCon, TIn>,

        requires
            callable_on(f, <TCon as WithTypeArg<TIn>>::elems(self.as_app())),
        ensures
            <TCon as WithTypeArg<TOut>>::frame(r) == <TCon as WithTypeArg<TIn>>::frame(self.as_app()),
            mapped(f, <TCon as WithTypeArg<TIn>>::elems(self.as_app()), <TCon as WithTypeArg<TOut>>::elems(r)),
    {
        lmap(f, self)
    }

    /// `f.fmap(&x)`: `fmap(f, x)`.
    fn fmap<TCon, TIn, TOut, X: TypeApp<TCon, TIn>>(self, x: &X) -> (r: <TCon as WithTypeArg<TOut>>::Type) where
        TCon: Functor + WithTypeArg<TIn> + WithTypeArg<TOut>,
        Self: Fn(&TIn) -> TOut,

        requires
            callable_on_ref(self, <TCon as WithTypeArg<TIn>>::elems(x.as_app())),
        ensures
            TCon::copied_frame(
                <TCon as WithTypeArg<TIn>>::frame(x.as_app()),
                <TCon as WithTypeArg<TOut>>::frame(r),
            ),
            mapped_ref(self, <TCon as WithTypeArg<TIn>>::elems(x.as_app()), <TCon as WithTypeArg<TOut>>::elems(r)),
    {
        fmap(self, x)
    }

    /// `x.fmapop(f)`: `fmap(f, &x)`.
    fn fmapop<TCon, TIn, TOut, F: Fn(&TIn) -> TOut>(&self, f: F) -> (r: <TCon as WithTypeArg<TOut>>::Type) where
        TCon: Functor + WithTypeArg<TIn> + WithTypeArg<TOut>,
        Self: TypeApp<TCon, TIn>,

        requires
            callable_on_ref(f, <TCon as WithTypeArg<TIn>>::elems(self.as_app())),
        ensures
            TCon::copied_frame(
                <TCon as WithTypeArg<TIn>>::frame(self.as_app()),
                <TCon as WithTypeArg<TOut>>::frame(r),
            ),
            mapped_ref(f, <TCon as WithTypeArg<TIn>>::elems(self.as_app()), <TCon as WithTypeArg<TOut>>::elems(r)),
    {
        fmap(f, self)
    }

    /// `x.lbind(f)`: `lbind(x, f)`.
    fn lbind<TCon, TIn, TOut, F: Fn(TIn) -> TResult, TResult: TypeApp<TCon, TOut>>(self, f: F) -> (r: TResult) where
        TCon: LinearMonad + WithTypeArg<TIn> + WithTypeArg<TOut>,
        Self: TypeApp<TCon, TIn>,

        requires
            <TCon as WithTypeArg<TIn>>::elems(self.as_app()).len() == 1 ==> f.requires(
                (<TCon as WithTypeArg<TIn>>::elems(self.as_app())[0],),
            ),
        ensures
            <TCon as WithTypeArg<TIn>>::elems(self.as_app()).len() == 1 ==> exists|t: TResult|
                f.ensures((<TCon as WithTypeArg<TIn>>::elems(self.as_app())[0],), t)
                    && #[trigger] t.as_app() == r.as_app(),
            <TCon as WithTypeArg<TIn>>::elems(self.as_app()).len() == 0 ==> <TCon as WithTypeArg<
                TOut,
            >>::elems(r.as_app()).len() == 0 && <TCon as WithTypeArg<TOut>>::frame(r.as_app())
                == <TCon as WithTypeArg<TIn>>::frame(self.as_app()),
    {
        lbind(self, f)
    }

    /// `x.lbind_ignore(&y)`: `lbind_ignore(x, y)`.
    fn lbind_ignore<TCon, TIn, TOut, TResult: TypeApp<TCon, TOut>>(self, y: &TResult) -> (r: TResult) where
        TCon: LinearMonad + WithTypeArg<TIn> + WithTypeArg<TOut>,
        Self: TypeApp<TCon, TIn>,
        <TCon as WithTypeArg<TOut>>::Type: Clone,

        ensures
            <TCon as WithTypeArg<TIn>>::elems(self.as_app()).len() == 1 ==> cloned(
                y.as_app(),
                r.as_app(),
            ),
            <TCon as WithTypeArg<TIn>>::elems(self.as_app()).len() == 0 ==> <TCon as WithTypeArg<
                TOut,
            >>::elems(r.as_app()).len() == 0 && <TCon as WithTypeArg<TOut>>::frame(r.as_app())
                == <TCon as WithTypeArg<TIn>>::frame(self.as_app()),
    {
        lbind_ignore(self, y)
    }
}

impl<X> SizedExt for X {
}

} // verus!
