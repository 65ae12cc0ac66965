//! The fallible-result shape: `Result<T, E>` for a fixed error type `E`.

use vstd::prelude::*;
use crate::applicative::{grid, lemma_product_of_singletons, Applicative, Lift, SingletonApplicative};
use crate::functor::{Functor, LinearFunctor};
use crate::monad::{bound, frames, joined, steps, LinearMonad, Monad};
use crate::typeapp::{Shape, TypeApp, TypeAppParam, WithTypeArg};

verus! {

/// Tag of `Result` with the error type `E`.
pub struct TypeCon<E> {
    _unused: core::marker::PhantomData<E>,
}

impl<E> Shape for TypeCon<E> {
    /// The error of a failed result; `None` for a success.
    type Frame = Option<E>;

    open spec fn pure_frame() -> Option<E> {
        None
    }

    /// The first error wins.
    open spec fn zip_frame(a: Option<E>, b: Option<E>) -> Option<E> {
        match a {
            Some(e) => Some(e),
            None => b,
        }
    }

    /// A failed input keeps its error; a success takes the frame of its one step.
    open spec fn bind_frame(a: Option<E>, bs: Seq<Option<E>>) -> Option<E> {
        match a {
            Some(e) => Some(e),
            None => if bs.len() == 1 { bs[0] } else { None },
        }
    }
}

impl<T, E> WithTypeArg<T> for TypeCon<E> {
    type Type = Result<T, E>;

    open spec fn elems(x: Result<T, E>) -> Seq<T> {
        match x {
            Ok(v) => seq![v],
            Err(_) => Seq::empty(),
        }
    }

    open spec fn frame(x: Result<T, E>) -> Option<E> {
        match x {
            Ok(_) => None,
            Err(e) => Some(e),
        }
    }
}

impl<T, E> TypeAppParam for Result<T, E> {
    type Param = T;
}

impl<T, E> TypeApp<TypeCon<E>, T> for Result<T, E> {
    open spec fn as_app(self) -> Result<T, E> {
        self
    }

    fn into_val(self) -> (r: Result<T, E>) {
        self
    }

    fn into_ref(&self) -> (r: &Result<T, E>) {
        self
    }

    fn from_val(x: Result<T, E>) -> (r: Result<T, E>) {
        x
    }
}

impl<E> LinearFunctor for TypeCon<E> {
    fn lmap<TIn, TOut, F: Fn(TIn) -> TOut>(
        f: F,
        x: <TypeCon<E> as WithTypeArg<TIn>>::Type,
    ) -> (r: <TypeCon<E> as WithTypeArg<TOut>>::Type) {
        match x {
            Ok(v) => {
                assert(<TypeCon<E> as WithTypeArg<TIn>>::elems(x)[0] == v);
                let w = f(v);
                assert(<TypeCon<E> as WithTypeArg<TOut>>::elems(Ok(w))[0] == w);
                Ok(w)
            },
            Err(e) => Err(e),
        }
    }
}

/// The error of `a` is cloned into `b`.
pub open spec fn err_cloned<E: Clone>(a: Option<E>, b: Option<E>) -> bool {
    match (a, b) {
        (None, None) => true,
        (Some(ea), Some(eb)) => cloned(ea, eb),
        _ => false,
    }
}

/// Clones the error of a borrowed result and passes a success on as it is.
pub fn clone_err<'a, T, E: Clone>(x: Result<T, &'a E>) -> (r: Result<T, E>)
    ensures
        match (x, r) {
            (Ok(a), Ok(b)) => a == b,
            (Err(a), Err(b)) => cloned(*a, b),
            _ => false,
        },
{
    match x {
        Ok(v) => Ok(v),
        Err(e) => Err(e.clone()),
    }
}

impl<E: Clone> Functor for TypeCon<E> {
    open spec fn copied_frame(a: Option<E>, b: Option<E>) -> bool {
        err_cloned(a, b)
    }

    fn fmap<TIn, TOut, F: Fn(&TIn) -> TOut>(
        f: F,
        x: &<TypeCon<E> as WithTypeArg<TIn>>::Type,
    ) -> (r: <TypeCon<E> as WithTypeArg<TOut>>::Type) {
        match x {
            Ok(v) => {
                assert(<TypeCon<E> as WithTypeArg<TIn>>::elems(*x)[0] == *v);
                let w = f(v);
                assert(<TypeCon<E> as WithTypeArg<TOut>>::elems(Ok(w))[0] == w);
                Ok(w)
            },
            Err(e) => clone_err(Err(e)),
        }
    }
}

impl<E> Lift for TypeCon<E> {
    fn lift<T>(x: T) -> (r: <TypeCon<E> as WithTypeArg<T>>::Type) {
        let r = Ok(x);
        assert(<TypeCon<E> as WithTypeArg<T>>::elems(r) =~= seq![x]);
        r
    }
}

impl<E> SingletonApplicative for TypeCon<E> {
    proof fn lemma_at_most_one<T>(x: <TypeCon<E> as WithTypeArg<T>>::Type) {
    }

    fn llift2<TIn1, TIn2, TOut, TFunc: FnOnce(TIn1, TIn2) -> TOut>(
        f: TFunc,
        x1: <TypeCon<E> as WithTypeArg<TIn1>>::Type,
        x2: <TypeCon<E> as WithTypeArg<TIn2>>::Type,
    ) -> (r: <TypeCon<E> as WithTypeArg<TOut>>::Type) {
        proof {
            lemma_product_of_singletons(
                <TypeCon<E> as WithTypeArg<TIn1>>::elems(x1).len() as int,
                <TypeCon<E> as WithTypeArg<TIn2>>::elems(x2).len() as int,
            );
        }
        match x1 {
            Ok(a) => match x2 {
                Ok(b) => {
                    assert(<TypeCon<E> as WithTypeArg<TIn1>>::elems(x1)[0] == a);
                    assert(<TypeCon<E> as WithTypeArg<TIn2>>::elems(x2)[0] == b);
                    let c = f(a, b);
                    assert(<TypeCon<E> as WithTypeArg<TOut>>::elems(Ok(c))[0] == c);
                    Ok(c)
                },
                Err(e) => Err(e),
            },
            Err(e) => Err(e),
        }
    }
}

impl<E: Clone> Applicative for TypeCon<E> {
    fn lift2<TIn1, TIn2, TOut, F: Fn(&TIn1, &TIn2) -> TOut>(
        f: F,
        x1: &<TypeCon<E> as WithTypeArg<TIn1>>::Type,
        x2: &<TypeCon<E> as WithTypeArg<TIn2>>::Type,
    ) -> (r: <TypeCon<E> as WithTypeArg<TOut>>::Type) {
        proof {
            lemma_product_of_singletons(
                <TypeCon<E> as WithTypeArg<TIn1>>::elems(*x1).len() as int,
                <TypeCon<E> as WithTypeArg<TIn2>>::elems(*x2).len() as int,
            );
        }
        match x1 {
            Ok(a) => match x2 {
                Ok(b) => {
                    assert(<TypeCon<E> as WithTypeArg<TIn1>>::elems(*x1)[0] == *a);
                    assert(<TypeCon<E> as WithTypeArg<TIn2>>::elems(*x2)[0] == *b);
                    let c = f(a, b);
                    assert(<TypeCon<E> as WithTypeArg<TOut>>::elems(Ok(c))[0] == c);
                    assert(grid(0, 0, 1) == 0);
                    Ok(c)
                },
                Err(e) => clone_err(Err(e)),
            },
            Err(e) => clone_err(Err(e)),
        }
    }
}

impl<E: Clone> Monad for TypeCon<E> {
    fn bind<TIn, TOut, F: Fn(&TIn) -> <TypeCon<E> as WithTypeArg<TOut>>::Type>(
        x: &<TypeCon<E> as WithTypeArg<TIn>>::Type,
        f: F,
    ) -> (r: <TypeCon<E> as WithTypeArg<TOut>>::Type) {
        match x {
            Ok(v) => {
                assert(<TypeCon<E> as WithTypeArg<TIn>>::elems(*x)[0] == *v);
                let y = f(v);
                proof {
                    let ys = seq![y];
                    assert(ys.map_values(
                        |y: <TypeCon<E> as WithTypeArg<TOut>>::Type|
                            <TypeCon<E> as WithTypeArg<TOut>>::elems(y),
                    ) =~= seq![<TypeCon<E> as WithTypeArg<TOut>>::elems(y)]);
                    seq![<TypeCon<E> as WithTypeArg<TOut>>::elems(y)].lemma_flatten_one_element();
                    assert(frames::<TypeCon<E>, TOut>(ys) =~= seq![
                        <TypeCon<E> as WithTypeArg<TOut>>::frame(y),
                    ]);
                    assert(bound::<TypeCon<E>, TIn, TOut>(*x, ys, y));
                    assert(steps(f, <TypeCon<E> as WithTypeArg<TIn>>::elems(*x), ys));
                }
                y
            },
            Err(e) => {
                let r: Result<TOut, E> = clone_err(Err(e));
                proof {
                    let ys = Seq::<Result<TOut, E>>::empty();
                    assert(joined::<TypeCon<E>, TOut>(ys) =~= Seq::<TOut>::empty());
                    assert(bound::<TypeCon<E>, TIn, TOut>(*x, ys, r));
                }
                r
            },
        }
    }
}

impl<E> LinearMonad for TypeCon<E> {
    fn lbind<TIn, TOut, F: FnOnce(TIn) -> <TypeCon<E> as WithTypeArg<TOut>>::Type>(
        x: <TypeCon<E> as WithTypeArg<TIn>>::Type,
        f: F,
    ) -> (r: <TypeCon<E> as WithTypeArg<TOut>>::Type) {
        match x {
            Ok(v) => {
                assert(<TypeCon<E> as WithTypeArg<TIn>>::elems(x)[0] == v);
                f(v)
            },
            Err(e) => Err(e),
        }
    }
}

} // verus!
