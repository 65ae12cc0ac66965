//! The optional-value shape: `Option<T>`.

use vstd::prelude::*;
use crate::applicative::{grid, lemma_product_of_singletons, Applicative, Lift, SingletonApplicative};
use crate::foldable::{folded_right, folded_right_ref, Foldable, LinearFoldable};
use crate::functor::{Functor, LinearFunctor};
use crate::monad::{bound, joined, steps, LinearMonad, Monad};
use crate::typeapp::{Shape, TypeApp, TypeAppParam, WithTypeArg};

verus! {

/// Tag of `Option`.
pub struct TypeCon;

impl Shape for TypeCon {
    type Frame = ();

    open spec fn pure_frame() -> () {
        ()
    }

    open spec fn zip_frame(a: (), b: ()) -> () {
        ()
    }

    open spec fn bind_frame(a: (), bs: Seq<()>) -> () {
        ()
    }
}

impl<T> WithTypeArg<T> for TypeCon {
    type Type = Option<T>;

    open spec fn elems(x: Option<T>) -> Seq<T> {
        match x {
            Some(v) => seq![v],
            None => Seq::empty(),
        }
    }

    open spec fn frame(x: Option<T>) -> () {
        ()
    }

}

impl<T> TypeAppParam for Option<T> {
    type Param = T;
}

impl<T> TypeApp<TypeCon, T> for Option<T> {
    open spec fn as_app(self) -> Option<T> {
        self
    }

    fn into_val(self) -> (r: Option<T>) {
        self
    }

    fn into_ref(&self) -> (r: &Option<T>) {
        self
    }

    fn from_val(x: Option<T>) -> (r: Option<T>) {
        x
    }
}

impl LinearFunctor for TypeCon {
    fn lmap<TIn, TOut, F: Fn(TIn) -> TOut>(
        f: F,
        x: <TypeCon as WithTypeArg<TIn>>::Type,
    ) -> (r: <TypeCon as WithTypeArg<TOut>>::Type) {
        match x {
            Some(v) => {
                assert(<TypeCon as WithTypeArg<TIn>>::elems(x)[0] == v);
                let w = f(v);
                assert(<TypeCon as WithTypeArg<TOut>>::elems(Some(w))[0] == w);
                Some(w)
            },
            None => None,
        }
    }
}

impl Functor for TypeCon {
    open spec fn copied_frame(a: (), b: ()) -> bool {
        a == b
    }

    fn fmap<TIn, TOut, F: Fn(&TIn) -> TOut>(
        f: F,
        x: &<TypeCon as WithTypeArg<TIn>>::Type,
    ) -> (r: <TypeCon as WithTypeArg<TOut>>::Type) {
        match x {
            Some(v) => {
                assert(<TypeCon as WithTypeArg<TIn>>::elems(*x)[0] == *v);
                let w = f(v);
                assert(<TypeCon as WithTypeArg<TOut>>::elems(Some(w))[0] == w);
                Some(w)
            },
            None => None,
        }
    }
}

impl Lift for TypeCon {
    fn lift<T>(x: T) -> (r: <TypeCon as WithTypeArg<T>>::Type) {
        let r = Some(x);
        assert(<TypeCon as WithTypeArg<T>>::elems(r) =~= seq![x]);
        r
    }
}

impl SingletonApplicative for TypeCon {
    proof fn lemma_at_most_one<T>(x: <TypeCon as WithTypeArg<T>>::Type) {
    }

    fn llift2<TIn1, TIn2, TOut, TFunc: FnOnce(TIn1, TIn2) -> TOut>(
        f: TFunc,
        x1: <TypeCon as WithTypeArg<TIn1>>::Type,
        x2: <TypeCon as WithTypeArg<TIn2>>::Type,
    ) -> (r: <TypeCon as WithTypeArg<TOut>>::Type) {
        proof {
            lemma_product_of_singletons(
                <TypeCon as WithTypeArg<TIn1>>::elems(x1).len() as int,
                <TypeCon as WithTypeArg<TIn2>>::elems(x2).len() as int,
            );
        }
        match x1 {
            Some(a) => match x2 {
                Some(b) => {
                    assert(<TypeCon as WithTypeArg<TIn1>>::elems(x1)[0] == a);
                    assert(<TypeCon as WithTypeArg<TIn2>>::elems(x2)[0] == b);
                    let c = f(a, b);
                    assert(<TypeCon as WithTypeArg<TOut>>::elems(Some(c))[0] == c);
                    Some(c)
                },
                None => None,
            },
            None => None,
        }
    }
}

impl Applicative for TypeCon {
    fn lift2<TIn1, TIn2, TOut, F: Fn(&TIn1, &TIn2) -> TOut>(
        f: F,
        x1: &<TypeCon as WithTypeArg<TIn1>>::Type,
        x2: &<TypeCon as WithTypeArg<TIn2>>::Type,
    ) -> (r: <TypeCon as WithTypeArg<TOut>>::Type) {
        proof {
            lemma_product_of_singletons(
                <TypeCon as WithTypeArg<TIn1>>::elems(*x1).len() as int,
                <TypeCon as WithTypeArg<TIn2>>::elems(*x2).len() as int,
            );
        }
        match x1 {
            Some(a) => match x2 {
                Some(b) => {
                    assert(<TypeCon as WithTypeArg<TIn1>>::elems(*x1)[0] == *a);
                    assert(<TypeCon as WithTypeArg<TIn2>>::elems(*x2)[0] == *b);
                    let c = f(a, b);
                    assert(<TypeCon as WithTypeArg<TOut>>::elems(Some(c))[0] == c);
                    assert(grid(0, 0, 1) == 0);
                    Some(c)
                },
                None => None,
            },
            None => None,
        }
    }
}

impl Monad for TypeCon {
    fn bind<TIn, TOut, F: Fn(&TIn) -> <TypeCon as WithTypeArg<TOut>>::Type>(
        x: &<TypeCon as WithTypeArg<TIn>>::Type,
        f: F,
    ) -> (r: <TypeCon as WithTypeArg<TOut>>::Type) {
        match x {
            Some(v) => {
                assert(<TypeCon as WithTypeArg<TIn>>::elems(*x)[0] == *v);
                let y = f(v);
                proof {
                    let ys = seq![y];
                    assert(ys.map_values(
                        |y: <TypeCon as WithTypeArg<TOut>>::Type|
                            <TypeCon as WithTypeArg<TOut>>::elems(y),
                    ) =~= seq![<TypeCon as WithTypeArg<TOut>>::elems(y)]);
                    seq![<TypeCon as WithTypeArg<TOut>>::elems(y)].lemma_flatten_one_element();
                    assert(bound::<TypeCon, TIn, TOut>(*x, ys, y));
                    assert(steps(f, <TypeCon as WithTypeArg<TIn>>::elems(*x), ys));
                }
                y
            },
            None => {
                let r: Option<TOut> = None;
                proof {
                    let ys = Seq::<Option<TOut>>::empty();
                    assert(joined::<TypeCon, TOut>(ys) =~= Seq::<TOut>::empty());
                    assert(bound::<TypeCon, TIn, TOut>(*x, ys, r));
                }
                r
            },
        }
    }
}

impl LinearMonad for TypeCon {
    fn lbind<TIn, TOut, F: FnOnce(TIn) -> <TypeCon as WithTypeArg<TOut>>::Type>(
        x: <TypeCon as WithTypeArg<TIn>>::Type,
        f: F,
    ) -> (r: <TypeCon as WithTypeArg<TOut>>::Type) {
        match x {
            Some(v) => {
                assert(<TypeCon as WithTypeArg<TIn>>::elems(x)[0] == v);
                f(v)
            },
            None => None,
        }
    }
}

impl LinearFoldable for TypeCon {
    fn lfoldr<F: Fn(TIn, TOut) -> TOut, TIn, TOut>(
        f: F,
        init: TOut,
        x: <TypeCon as WithTypeArg<TIn>>::Type,
    ) -> (r: TOut) {
        let ghost xs = <TypeCon as WithTypeArg<TIn>>::elems(x);
        let ghost init0 = init;
        match x {
            Some(v) => {
                assert(xs[0] == v);
                let r = f(v, init);
                assert(folded_right(f, xs, init0, seq![r, init0]));
                r
            },
            None => {
                assert(folded_right(f, xs, init0, seq![init0]));
                init
            },
        }
    }
}

impl Foldable for TypeCon {
    fn foldr<F: Fn(&TIn, TOut) -> TOut, TIn, TOut>(
        f: F,
        init: TOut,
        x: &<TypeCon as WithTypeArg<TIn>>::Type,
    ) -> (r: TOut) {
        let ghost xs = <TypeCon as WithTypeArg<TIn>>::elems(*x);
        let ghost init0 = init;
        match x {
            Some(v) => {
                assert(xs[0] == *v);
                let r = f(v, init);
                assert(folded_right_ref(f, xs, init0, seq![r, init0]));
                r
            },
            None => {
                assert(folded_right_ref(f, xs, init0, seq![init0]));
                init
            },
        }
    }
}

} // verus!
