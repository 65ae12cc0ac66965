//! The sequence shape: `Vec<T>`.

use vstd::prelude::*;
use crate::applicative::{callable_on_pairs, grid, lemma_product_of_singletons, Applicative, Lift, SingletonApplicative};
use crate::monad::{bound, frames, joined, steps, Monad};
use crate::traversable::{all_present, firsts, zipped_frames, LinearTraversable};
use crate::foldable::{foldable_with, foldable_with_ref, folded_right, folded_right_ref, Foldable, LinearFoldable};
use crate::functor::{callable_on, callable_on_ref, mapped, Functor, LinearFunctor};
use crate::typeapp::{Shape, TypeApp, TypeAppParam, WithTypeArg};

verus! {

/// Tag of `Vec`.
pub struct TypeCon;

impl Shape for TypeCon {
    type Frame = ();

    open spec fn pure_frame() -> () {
        ()
    }

    open spec fn zip_frame(a: (), b: ()) -> () {
        ()
    }

    open spec fn bind_frame(a: (), bs: Seq<()>) -> () {
        ()
    }
}

impl<T> WithTypeArg<T> for TypeCon {
    type Type = Vec<T>;

    open spec fn elems(x: Vec<T>) -> Seq<T> {
        x@
    }

    open spec fn frame(x: Vec<T>) -> () {
        ()
    }
}

impl<T> TypeAppParam for Vec<T> {
    type Param = T;
}

impl<T> TypeApp<TypeCon, T> for Vec<T> {
    open spec fn as_app(self) -> Vec<T> {
        self
    }

    fn into_val(self) -> (r: Vec<T>) {
        self
    }

    fn into_ref(&self) -> (r: &Vec<T>) {
        self
    }

    fn from_val(x: Vec<T>) -> (r: Vec<T>) {
        x
    }
}

/// The elements of `v` in reverse order.
fn reversed<T>(v: Vec<T>) -> (r: Vec<T>)
    ensures
        r.len() == v.len(),
        forall|k: int| 0 <= k < v.len() ==> r@[k] == v@[v.len() - 1 - k],
{
    let ghost vs = v@;
    let mut v = v;
    let mut r: Vec<T> = Vec::new();
    while v.len() > 0
        invariant
            v.len() + r.len() == vs.len(),
            v@ == vs.take(v.len() as int),
            forall|k: int| 0 <= k < r.len() ==> r@[k] == vs[vs.len() - 1 - k],
        decreases v.len(),
    {
        let e = v.pop().unwrap();
        r.push(e);
    }
    r
}

impl LinearFunctor for TypeCon {
    fn lmap<TIn, TOut, F: Fn(TIn) -> TOut>(
        f: F,
        x: <TypeCon as WithTypeArg<TIn>>::Type,
    ) -> (r: <TypeCon as WithTypeArg<TOut>>::Type) {
        let ghost xs = x@;
        assert(<TypeCon as WithTypeArg<TIn>>::elems(x) == xs);
        let mut rest = reversed(x);
        let mut out: Vec<TOut> = Vec::new();
        while rest.len() > 0
            invariant
                callable_on(f, xs),
                out.len() + rest.len() == xs.len(),
                forall|k: int| 0 <= k < rest.len() ==> rest@[k] == xs[xs.len() - 1 - k],
                mapped(f, xs.take(out.len() as int), out@),
            decreases rest.len(),
        {
            let v = rest.pop().unwrap();
            let ghost i = out.len() as int;
            assert(v == xs[i]);
            let w = f(v);
            out.push(w);
            assert(mapped(f, xs.take(out.len() as int), out@)) by {
                assert forall|k: int| 0 <= k < out.len() implies f.ensures(
                    (xs.take(out.len() as int)[k],),
                    #[trigger] out@[k],
                ) by {
                    if k < i {
                        assert(xs.take(i)[k] == xs.take(out.len() as int)[k]);
                    }
                }
            }
        }
        assert(xs.take(xs.len() as int) == xs);
        out
    }
}

impl Functor for TypeCon {
    open spec fn copied_frame(a: (), b: ()) -> bool {
        a == b
    }

    fn fmap<TIn, TOut, F: Fn(&TIn) -> TOut>(
        f: F,
        x: &<TypeCon as WithTypeArg<TIn>>::Type,
    ) -> (r: <TypeCon as WithTypeArg<TOut>>::Type) {
        let mut out: Vec<TOut> = Vec::new();
        let mut i: usize = 0;
        while i < x.len()
            invariant
                callable_on_ref(f, x@),
                i <= x.len(),
                out.len() == i,
                forall|k: int| 0 <= k < i ==> f.ensures((&x@[k],), #[trigger] out@[k]),
            decreases x.len() - i,
        {
            let w = f(&x[i]);
            out.push(w);
            i = i + 1;
        }
        out
    }
}

impl Lift for TypeCon {
    fn lift<T>(x: T) -> (r: <TypeCon as WithTypeArg<T>>::Type) {
        let mut r: Vec<T> = Vec::new();
        r.push(x);
        assert(r@ =~= seq![x]);
        r
    }
}

impl Applicative for TypeCon {
    fn lift2<TIn1, TIn2, TOut, F: Fn(&TIn1, &TIn2) -> TOut>(
        f: F,
        x1: &<TypeCon as WithTypeArg<TIn1>>::Type,
        x2: &<TypeCon as WithTypeArg<TIn2>>::Type,
    ) -> (r: <TypeCon as WithTypeArg<TOut>>::Type) {
        let ghost n = x2.len() as int;
        let mut out: Vec<TOut> = Vec::new();
        let mut i: usize = 0;
        while i < x1.len()
            invariant
                callable_on_pairs(f, x1@, x2@),
                n == x2.len(),
                i <= x1.len(),
                out.len() == i * n,
                forall|a: int, b: int|
                    0 <= a < i && 0 <= b < n ==> f.ensures(
                        (&x1@[a], &x2@[b]),
                        #[trigger] out@[grid(a, b, n)],
                    ),
            decreases x1.len() - i,
        {
            let mut j: usize = 0;
            while j < x2.len()
                invariant
                    callable_on_pairs(f, x1@, x2@),
                    n == x2.len(),
                    i < x1.len(),
                    j <= x2.len(),
                    out.len() == i * n + j,
                    forall|a: int, b: int|
                        0 <= a < i && 0 <= b < n ==> f.ensures(
                            (&x1@[a], &x2@[b]),
                            #[trigger] out@[grid(a, b, n)],
                        ),
                    forall|b: int|
                        0 <= b < j ==> f.ensures(
                            (&x1@[i as int], &x2@[b]),
                            #[trigger] out@[grid(i as int, b, n)],
                        ),
                decreases x2.len() - j,
            {
                let c = f(&x1[i], &x2[j]);
                let ghost before = out@;
                out.push(c);
                proof {
                    assert(grid(i as int, j as int, n) == i * n + j);
                    assert forall|a: int, b: int| 0 <= a < i && 0 <= b < n implies f.ensures(
                        (&x1@[a], &x2@[b]),
                        #[trigger] out@[grid(a, b, n)],
                    ) by {
                        assert(a * n + b < i * n) by (nonlinear_arith)
                            requires 0 <= a < i, 0 <= b < n;
                        assert(out@[grid(a, b, n)] == before[grid(a, b, n)]);
                    }
                    assert forall|b: int| 0 <= b < j + 1 implies f.ensures(
                        (&x1@[i as int], &x2@[b]),
                        #[trigger] out@[grid(i as int, b, n)],
                    ) by {
                        if b < j {
                            assert(out@[grid(i as int, b, n)] == before[grid(i as int, b, n)]);
                        }
                    }
                }
                j = j + 1;
            }
            proof {
                assert((i + 1) * n == i * n + n) by (nonlinear_arith);
                assert forall|a: int, b: int| 0 <= a < i + 1 && 0 <= b < n implies f.ensures(
                    (&x1@[a], &x2@[b]),
                    #[trigger] out@[grid(a, b, n)],
                ) by {
                    if a == i {
                        assert(f.ensures((&x1@[i as int], &x2@[b]), out@[grid(i as int, b, n)]));
                    }
                }
            }
            i = i + 1;
        }
        out
    }
}

impl Monad for TypeCon {
    fn bind<TIn, TOut, F: Fn(&TIn) -> <TypeCon as WithTypeArg<TOut>>::Type>(
        x: &<TypeCon as WithTypeArg<TIn>>::Type,
        f: F,
    ) -> (r: <TypeCon as WithTypeArg<TOut>>::Type) {
        let ghost mut ys: Seq<Vec<TOut>> = Seq::empty();
        let mut out: Vec<TOut> = Vec::new();
        let mut i: usize = 0;
        assert(joined::<TypeCon, TOut>(ys) =~= Seq::<TOut>::empty());
        while i < x.len()
            invariant
                callable_on_ref(f, x@),
                i <= x.len(),
                ys.len() == i,
                forall|k: int| 0 <= k < i ==> f.ensures((&x@[k],), #[trigger] ys[k]),
                out@ == joined::<TypeCon, TOut>(ys),
            decreases x.len() - i,
        {
            let mut y = f(&x[i]);
            proof {
                let g = |y: Vec<TOut>| <TypeCon as WithTypeArg<TOut>>::elems(y);
                ys.lemma_push_map_commute(g, y);
                ys.map_values(g).lemma_flatten_push(y@);
                ys = ys.push(y);
            }
            out.append(&mut y);
            i = i + 1;
        }
        proof {
            assert(steps(f, x@, ys));
            assert(bound::<TypeCon, TIn, TOut>(*x, ys, out));
        }
        out
    }
}

impl LinearFoldable for TypeCon {
    fn lfoldr<F: Fn(TIn, TOut) -> TOut, TIn, TOut>(
        f: F,
        init: TOut,
        x: <TypeCon as WithTypeArg<TIn>>::Type,
    ) -> (r: TOut) {
        let ghost xs = x@;
        let ghost n = xs.len() as int;
        let ghost init0 = init;
        let mut rest = x;
        let mut acc = init;
        let ghost mut tail: Seq<TOut> = seq![init0];
        while rest.len() > 0
            invariant
                foldable_with(f, xs),
                n == xs.len(),
                rest.len() <= n,
                rest@ == xs.take(rest.len() as int),
                tail.len() == n - rest.len() + 1,
                tail[0] == acc,
                tail[n - rest.len()] == init0,
                forall|j: int|
                    0 <= j < n - rest.len() ==> f.ensures(
                        (xs[rest.len() + j], tail[j + 1]),
                        #[trigger] tail[j],
                    ),
            decreases rest.len(),
        {
            let ghost m = rest.len() as int;
            let v = rest.pop().unwrap();
            assert(v == xs[m - 1]);
            acc = f(v, acc);
            proof {
                let old_tail = tail;
                tail = seq![acc] + old_tail;
                assert forall|j: int| 0 <= j < n - (m - 1) implies f.ensures(
                    (xs[(m - 1) + j], tail[j + 1]),
                    #[trigger] tail[j],
                ) by {
                    if j > 0 {
                        assert(tail[j] == old_tail[j - 1]);
                        assert(tail[j + 1] == old_tail[j]);
                        assert(f.ensures((xs[m + (j - 1)], old_tail[(j - 1) + 1]), old_tail[j - 1]));
                    }
                }
            }
        }
        assert(folded_right(f, xs, init0, tail));
        acc
    }
}

impl Foldable for TypeCon {
    fn foldr<F: Fn(&TIn, TOut) -> TOut, TIn, TOut>(
        f: F,
        init: TOut,
        x: &<TypeCon as WithTypeArg<TIn>>::Type,
    ) -> (r: TOut) {
        let ghost xs = x@;
        let ghost n = xs.len() as int;
        let ghost init0 = init;
        let mut m: usize = x.len();
        let mut acc = init;
        let ghost mut tail: Seq<TOut> = seq![init0];
        while m > 0
            invariant
                foldable_with_ref(f, xs),
                xs == x@,
                n == xs.len(),
                m <= n,
                tail.len() == n - m + 1,
                tail[0] == acc,
                tail[n - m] == init0,
                forall|j: int|
                    0 <= j < n - m ==> f.ensures((&xs[m + j], tail[j + 1]), #[trigger] tail[j]),
            decreases m,
        {
            acc = f(&x[m - 1], acc);
            proof {
                let old_tail = tail;
                tail = seq![acc] + old_tail;
                assert forall|j: int| 0 <= j < n - (m - 1) implies f.ensures(
                    (&xs[(m - 1) + j], tail[j + 1]),
                    #[trigger] tail[j],
                ) by {
                    if j > 0 {
                        assert(tail[j] == old_tail[j - 1]);
                        assert(tail[j + 1] == old_tail[j]);
                        assert(f.ensures((&xs[m + (j - 1)], old_tail[(j - 1) + 1]), old_tail[j - 1]));
                    }
                }
            }
            m = m - 1;
        }
        assert(folded_right_ref(f, xs, init0, tail));
        acc
    }
}

impl LinearTraversable for TypeCon {
    fn sequence<TApplicative, T>(
        x: <TypeCon as WithTypeArg<<TApplicative as WithTypeArg<T>>::Type>>::Type,
    ) -> (r: <TApplicative as WithTypeArg<<TypeCon as WithTypeArg<T>>::Type>>::Type) where
        TApplicative: SingletonApplicative + WithTypeArg<T> + WithTypeArg<<TypeCon as WithTypeArg<T>>::Type>,
     {
        let ghost xs = x@;
        let ghost n = xs.len() as int;
        let mut rest = reversed(x);
        let empty: Vec<T> = Vec::new();
        let mut acc = TApplicative::lift::<Vec<T>>(empty);
        proof {
            assert(xs.take(0) =~= Seq::<<TApplicative as WithTypeArg<T>>::Type>::empty());
            assert(frames::<TApplicative, T>(xs.take(0)) =~= Seq::empty());
            assert(firsts::<TApplicative, T>(xs.take(0)) =~= Seq::<T>::empty());
            assert(<TApplicative as WithTypeArg<Vec<T>>>::elems(acc)[0]@ =~= Seq::<T>::empty());
        }
        let ghost mut k: int = 0;
        while rest.len() > 0
            invariant
                n == xs.len(),
                0 <= k <= n,
                rest.len() + k == n,
                forall|j: int| 0 <= j < rest.len() ==> rest@[j] == xs[n - 1 - j],
                <TApplicative as WithTypeArg<Vec<T>>>::frame(acc) == zipped_frames::<TApplicative, T>(xs.take(k)),
                all_present::<TApplicative, T>(xs.take(k)) ==> <TApplicative as WithTypeArg<Vec<T>>>::elems(acc).len() == 1
                    && <TApplicative as WithTypeArg<Vec<T>>>::elems(acc)[0]@ == firsts::<TApplicative, T>(xs.take(k)),
                !all_present::<TApplicative, T>(xs.take(k)) ==> <TApplicative as WithTypeArg<Vec<T>>>::elems(acc).len() == 0,
            decreases rest.len(),
        {
            let e = rest.pop().unwrap();
            assert(e == xs[k]);
            let push = |v: Vec<T>, a: T| -> (o: Vec<T>)
                ensures
                    o@ == v@.push(a),
                {
                    let mut v = v;
                    v.push(a);
                    v
                };
            let ghost a0 = acc;
            acc = TApplicative::llift2(push, acc, e);
            proof {
                let ea = <TApplicative as WithTypeArg<Vec<T>>>::elems(a0);
                let ee = <TApplicative as WithTypeArg<T>>::elems(e);
                TApplicative::lemma_at_most_one::<Vec<T>>(a0);
                TApplicative::lemma_at_most_one::<T>(e);
                lemma_product_of_singletons(ea.len() as int, ee.len() as int);
                let pre = xs.take(k);
                let post = xs.take(k + 1);
                assert(post =~= pre.push(e));
                let g = |y: <TApplicative as WithTypeArg<T>>::Type| <TApplicative as WithTypeArg<T>>::frame(y);
                pre.lemma_push_map_commute(g, e);
                assert(frames::<TApplicative, T>(post) =~= frames::<TApplicative, T>(pre).push(
                    <TApplicative as WithTypeArg<T>>::frame(e),
                ));
                assert(frames::<TApplicative, T>(post).drop_last() =~= frames::<TApplicative, T>(pre));
                if all_present::<TApplicative, T>(post) {
                    assert(all_present::<TApplicative, T>(pre)) by {
                        assert forall|i: int| 0 <= i < pre.len() implies (#[trigger] <TApplicative as WithTypeArg<T>>::elems(pre[i])).len() == 1 by {
                            assert(pre[i] == post[i]);
                        }
                    }
                    assert(<TApplicative as WithTypeArg<T>>::elems(post[k]).len() == 1);
                    assert(firsts::<TApplicative, T>(post) =~= firsts::<TApplicative, T>(pre).push(ee[0]));
                } else {
                    if all_present::<TApplicative, T>(pre) {
                        assert(ee.len() != 1) by {
                            if ee.len() == 1 {
                                assert forall|i: int| 0 <= i < post.len() implies (#[trigger] <TApplicative as WithTypeArg<T>>::elems(post[i])).len() == 1 by {
                                    if i < k {
                                        assert(post[i] == pre[i]);
                                    }
                                }
                            }
                        }
                    }
                }
                k = k + 1;
            }
        }
        proof {
            assert(xs.take(n) =~= xs);
        }
        acc
    }
}

} // verus!
