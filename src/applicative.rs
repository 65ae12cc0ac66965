//! Lifting a bare value, and combining independently wrapped values.

use vstd::prelude::*;
use crate::functor::Functor;
use crate::typeapp::{Shape, TypeApp, WithTypeArg};

verus! {

/// Position of the pair `(i, j)` in a row-major grid with rows of length `n`.
pub open spec fn grid(i: int, j: int, n: int) -> int {
    i * n + j
}

/// `f` may be called on references to every pair of an element of `xs` and
/// an element of `ys`.
pub open spec fn callable_on_pairs<A, B, C, F: Fn(&A, &B) -> C>(
    f: F,
    xs: Seq<A>,
    ys: Seq<B>,
) -> bool {
    forall|i: int, j: int|
        0 <= i < xs.len() && 0 <= j < ys.len() ==> #[trigger] f.requires((&xs[i], &ys[j]))
}

/// `zs` is the cartesian product of `xs` and `ys` through `f`: every element
/// of `xs` with every element of `ys`, the outer loop over `xs`.
pub open spec fn product<A, B, C, F: Fn(&A, &B) -> C>(
    f: F,
    xs: Seq<A>,
    ys: Seq<B>,
    zs: Seq<C>,
) -> bool {
    &&& zs.len() == xs.len() * ys.len()
    &&& forall|i: int, j: int|
        0 <= i < xs.len() && 0 <= j < ys.len() ==> f.ensures(
            (&xs[i], &ys[j]),
            #[trigger] zs[grid(i, j, ys.len() as int)],
        )
}

/// Every function of `fs` may be called on a reference to every element of `xs`.
pub open spec fn appliable<A, B, G: Fn(&A) -> B>(fs: Seq<G>, xs: Seq<A>) -> bool {
    forall|i: int, j: int|
        0 <= i < fs.len() && 0 <= j < xs.len() ==> #[trigger] fs[i].requires((&xs[j],))
}

/// `zs` holds every function of `fs` applied to every element of `xs`, the
/// outer loop over `fs`.
pub open spec fn applied<A, B, G: Fn(&A) -> B>(fs: Seq<G>, xs: Seq<A>, zs: Seq<B>) -> bool {
    &&& zs.len() == fs.len() * xs.len()
    &&& forall|i: int, j: int|
        0 <= i < fs.len() && 0 <= j < xs.len() ==> fs[i].ensures(
            (&xs[j],),
            #[trigger] zs[grid(i, j, xs.len() as int)],
        )
}

/// The product of two lengths of at most one.
pub proof fn lemma_product_of_singletons(n1: int, n2: int)
    requires
        0 <= n1 <= 1,
        0 <= n2 <= 1,
    ensures
        n1 * n2 == (if n1 == 1 && n2 == 1 { 1int } else { 0int }),
{
    assert(n1 * n2 == (if n1 == 1 && n2 == 1 { 1int } else { 0int })) by (nonlinear_arith)
        requires
            0 <= n1 <= 1,
            0 <= n2 <= 1,
    ;
}

/// Wraps a bare value: Haskell's `pure`.
pub trait Lift: Shape {
    fn lift<T>(x: T) -> (r: <Self as WithTypeArg<T>>::Type) where Self: WithTypeArg<T>
        ensures
            <Self as WithTypeArg<T>>::elems(r) == seq![x],
            <Self as WithTypeArg<T>>::frame(r) == Self::pure_frame(),
    ;
}

/// Wraps `x` in the shape `TCon`.
pub fn lift<TCon, T>(x: T) -> (r: <TCon as WithTypeArg<T>>::Type) where
    TCon: Lift + WithTypeArg<T>,

    ensures
        <TCon as WithTypeArg<T>>::elems(r) == seq![x],
        <TCon as WithTypeArg<T>>::frame(r) == TCon::pure_frame(),
{
    TCon::lift::<T>(x)
}

/// Wraps `x` in whatever container type the caller asks for: the shape and
/// the element type are read off the result type `U`.
pub fn lift_c<TCon, T, U: TypeApp<TCon, T>>(x: T) -> (r: U) where TCon: Lift + WithTypeArg<T>
    ensures
        <TCon as WithTypeArg<T>>::elems(r.as_app()) == seq![x],
        <TCon as WithTypeArg<T>>::frame(r.as_app()) == TCon::pure_frame(),
{
    U::from_val(lift::<TCon, T>(x))
}

/// By-value combination, for shapes that hold at most one element, where a
/// once-callable function is enough.
pub trait SingletonApplicative: Lift {
    /// A container of the shape holds at most one element.
    proof fn lemma_at_most_one<T>(x: <Self as WithTypeArg<T>>::Type) where Self: WithTypeArg<T>
        ensures
            <Self as WithTypeArg<T>>::elems(x).len() <= 1,
    ;

    /// Applies the wrapped function to the wrapped value, consuming both.
    fn lap<TIn, TOut, TFunc: FnOnce(TIn) -> TOut>(
        f: <Self as WithTypeArg<TFunc>>::Type,
        x: <Self as WithTypeArg<TIn>>::Type,
    ) -> (r: <Self as WithTypeArg<TOut>>::Type) where
        Self: WithTypeArg<TFunc> + WithTypeArg<TIn> + WithTypeArg<TOut>,

        requires
            <Self as WithTypeArg<TFunc>>::elems(f).len() == 1 && <Self as WithTypeArg<
                TIn,
            >>::elems(x).len() == 1 ==> <Self as WithTypeArg<TFunc>>::elems(f)[0].requires(
                (<Self as WithTypeArg<TIn>>::elems(x)[0],),
            ),
        ensures
            <Self as WithTypeArg<TOut>>::frame(r) == Self::zip_frame(
                <Self as WithTypeArg<TFunc>>::frame(f),
                <Self as WithTypeArg<TIn>>::frame(x),
            ),
            <Self as WithTypeArg<TOut>>::elems(r).len() == <Self as WithTypeArg<TFunc>>::elems(
                f,
            ).len() * <Self as WithTypeArg<TIn>>::elems(x).len(),
            <Self as WithTypeArg<TOut>>::elems(r).len() == 1 ==> <Self as WithTypeArg<
                TFunc,
            >>::elems(f)[0].ensures(
                (<Self as WithTypeArg<TIn>>::elems(x)[0],),
                <Self as WithTypeArg<TOut>>::elems(r)[0],
            ),
    {
        let apply = |g: TFunc, y: TIn| -> (o: TOut)
            requires
                g.requires((y,)),
            ensures
                g.ensures((y,), o),
            { g(y) };
        Self::llift2(apply, f, x)
    }

    /// Combines the wrapped values with `f`, consuming both containers.
    fn llift2<TIn1, TIn2, TOut, TFunc: FnOnce(TIn1, TIn2) -> TOut>(
        f: TFunc,
        x1: <Self as WithTypeArg<TIn1>>::Type,
        x2: <Self as WithTypeArg<TIn2>>::Type,
    ) -> (r: <Self as WithTypeArg<TOut>>::Type) where
        Self: WithTypeArg<TIn1> + WithTypeArg<TIn2> + WithTypeArg<TOut>,

        requires
            <Self as WithTypeArg<TIn1>>::elems(x1).len() == 1 && <Self as WithTypeArg<
                TIn2,
            >>::elems(x2).len() == 1 ==> f.requires(
                (
                    <Self as WithTypeArg<TIn1>>::elems(x1)[0],
                    <Self as WithTypeArg<TIn2>>::elems(x2)[0],
                ),
            ),
        ensures
            <Self as WithTypeArg<TOut>>::frame(r) == Self::zip_frame(
                <Self as WithTypeArg<TIn1>>::frame(x1),
                <Self as WithTypeArg<TIn2>>::frame(x2),
            ),
            <Self as WithTypeArg<TOut>>::elems(r).len() == <Self as WithTypeArg<TIn1>>::elems(
                x1,
            ).len() * <Self as WithTypeArg<TIn2>>::elems(x2).len(),
            <Self as WithTypeArg<TOut>>::elems(r).len() == 1 ==> f.ensures(
                (
                    <Self as WithTypeArg<TIn1>>::elems(x1)[0],
                    <Self as WithTypeArg<TIn2>>::elems(x2)[0],
                ),
                <Self as WithTypeArg<TOut>>::elems(r)[0],
            ),
    ;
}

/// By-reference combination: every element of the first container with every
/// element of the second, the outer loop over the first.
pub trait Applicative: Functor + Lift {
    /// Applies every wrapped function to every wrapped value.
    fn ap<TIn, TOut, TFunc: Fn(&TIn) -> TOut>(
        f: &<Self as WithTypeArg<TFunc>>::Type,
        x: &<Self as WithTypeArg<TIn>>::Type,
    ) -> (r: <Self as WithTypeArg<TOut>>::Type) where
        Self: WithTypeArg<TFunc> + WithTypeArg<TIn> + WithTypeArg<TOut>,

        requires
            appliable(<Self as WithTypeArg<TFunc>>::elems(*f), <Self as WithTypeArg<TIn>>::elems(*x)),
        ensures
            Self::copied_frame(
                Self::zip_frame(
                    <Self as WithTypeArg<TFunc>>::frame(*f),
                    <Self as WithTypeArg<TIn>>::frame(*x),
                ),
                <Self as WithTypeArg<TOut>>::frame(r),
            ),
            applied(
                <Self as WithTypeArg<TFunc>>::elems(*f),
                <Self as WithTypeArg<TIn>>::elems(*x),
                <Self as WithTypeArg<TOut>>::elems(r),
            ),
    {
        let apply = |g: &TFunc, y: &TIn| -> (o: TOut)
            requires
                g.requires((y,)),
            ensures
                g.ensures((y,), o),
            { g(y) };
        let r = Self::lift2(apply, f, x);
        proof {
            let fs = <Self as WithTypeArg<TFunc>>::elems(*f);
            let xs = <Self as WithTypeArg<TIn>>::elems(*x);
            let rs = <Self as WithTypeArg<TOut>>::elems(r);
            assert forall|i: int, j: int| 0 <= i < fs.len() && 0 <= j < xs.len() implies fs[i].ensures(
                (&xs[j],),
                #[trigger] rs[grid(i, j, xs.len() as int)],
            ) by {
                assert(apply.ensures((&fs[i], &xs[j]), rs[grid(i, j, xs.len() as int)]));
            }
        }
        r
    }

    /// Combines every element of `x1` with every element of `x2` through `f`.
    fn lift2<TIn1, TIn2, TOut, F: Fn(&TIn1, &TIn2) -> TOut>(
        f: F,
        x1: &<Self as WithTypeArg<TIn1>>::Type,
        x2: &<Self as WithTypeArg<TIn2>>::Type,
    ) -> (r: <Self as WithTypeArg<TOut>>::Type) where
        Self: WithTypeArg<TIn1> + WithTypeArg<TIn2> + WithTypeArg<TOut>,

        requires
            callable_on_pairs(
                f,
                <Self as WithTypeArg<TIn1>>::elems(*x1),
                <Self as WithTypeArg<TIn2>>::elems(*x2),
            ),
        ensures
            Self::copied_frame(
                Self::zip_frame(
                    <Self as WithTypeArg<TIn1>>::frame(*x1),
                    <Self as WithTypeArg<TIn2>>::frame(*x2),
                ),
                <Self as WithTypeArg<TOut>>::frame(r),
            ),
            product(
                f,
                <Self as WithTypeArg<TIn1>>::elems(*x1),
                <Self as WithTypeArg<TIn2>>::elems(*x2),
                <Self as WithTypeArg<TOut>>::elems(r),
            ),
    ;
}

/// Applies an owned wrapped function to an owned wrapped value.
pub fn lap<TCon, TIn, TOut, TFunc: Fn(TIn) -> TOut, F: TypeApp<TCon, TFunc>, X: TypeApp<TCon, TIn>>(
    f: F,
    x: X,
) -> (r: <TCon as WithTypeArg<TOut>>::Type) where
    TCon: SingletonApplicative + WithTypeArg<TFunc> + WithTypeArg<TIn> + WithTypeArg<TOut>,

    requires
        <TCon as WithTypeArg<TFunc>>::elems(f.as_app()).len() == 1 && <TCon as WithTypeArg<
            TIn,
        >>::elems(x.as_app()).len() == 1 ==> <TCon as WithTypeArg<TFunc>>::elems(
            f.as_app(),
        )[0].requires((<TCon as WithTypeArg<TIn>>::elems(x.as_app())[0],)),
    ensures
        <TCon as WithTypeArg<TOut>>::frame(r) == TCon::zip_frame(
            <TCon as WithTypeArg<TFunc>>::frame(f.as_app()),
            <TCon as WithTypeArg<TIn>>::frame(x.as_app()),
        ),
        <TCon as WithTypeArg<TOut>>::elems(r).len() == <TCon as WithTypeArg<TFunc>>::elems(
            f.as_app(),
        ).len() * <TCon as WithTypeArg<TIn>>::elems(x.as_app()).len(),
        <TCon as WithTypeArg<TOut>>::elems(r).len() == 1 ==> <TCon as WithTypeArg<
            TFunc,
        >>::elems(f.as_app())[0].ensures(
            (<TCon as WithTypeArg<TIn>>::elems(x.as_app())[0],),
            <TCon as WithTypeArg<TOut>>::elems(r)[0],
        ),
{
    TCon::lap::<TIn, TOut, TFunc>(f.into_val(), x.into_val())
}

/// Combines two owned wrapped values with `f`.
pub fn llift2<TCon, TIn1, TIn2, TOut, F: Fn(TIn1, TIn2) -> TOut, X1: TypeApp<TCon, TIn1>, X2: TypeApp<
    TCon,
    TIn2,
>>(f: F, x1: X1, x2: X2) -> (r: <TCon as WithTypeArg<TOut>>::Type) where
    TCon: SingletonApplicative + WithTypeArg<TIn1> + WithTypeArg<TIn2> + WithTypeArg<TOut>,

    requires
        <TCon as WithTypeArg<TIn1>>::elems(x1.as_app()).len() == 1 && <TCon as WithTypeArg<
            TIn2,
        >>::elems(x2.as_app()).len() == 1 ==> f.requires(
            (
                <TCon as WithTypeArg<TIn1>>::elems(x1.as_app())[0],
                <TCon as WithTypeArg<TIn2>>::elems(x2.as_app())[0],
            ),
        ),
    ensures
        <TCon as WithTypeArg<TOut>>::frame(r) == TCon::zip_frame(
            <TCon as WithTypeArg<TIn1>>::frame(x1.as_app()),
            <TCon as WithTypeArg<TIn2>>::frame(x2.as_app()),
        ),
        <TCon as WithTypeArg<TOut>>::elems(r).len() == <TCon as WithTypeArg<TIn1>>::elems(
            x1.as_app(),
        ).len() * <TCon as WithTypeArg<TIn2>>::elems(x2.as_app()).len(),
        <TCon as WithTypeArg<TOut>>::elems(r).len() == 1 ==> f.ensures(
            (
                <TCon as WithTypeArg<TIn1>>::elems(x1.as_app())[0],
                <TCon as WithTypeArg<TIn2>>::elems(x2.as_app())[0],
            ),
            <TCon as WithTypeArg<TOut>>::elems(r)[0],
        ),
{
    TCon::llift2(f, x1.into_val(), x2.into_val())
}

/// Applies every function of a borrowed container to every value of another.
pub fn ap<TCon, TFunc: Fn(&TIn) -> TOut, TIn, TOut, F: TypeApp<TCon, TFunc>, X: TypeApp<TCon, TIn>>(
    f: &F,
    x: &X,
) -> (r: <TCon as WithTypeArg<TOut>>::Type) where
    TCon: Applicative + WithTypeArg<TFunc> + WithTypeArg<TIn> + WithTypeArg<TOut>,

    requires
        appliable(
            <TCon as WithTypeArg<TFunc>>::elems(f.as_app()),
            <TCon as WithTypeArg<TIn>>::elems(x.as_app()),
        ),
    ensures
        TCon::copied_frame(
            TCon::zip_frame(
                <TCon as WithTypeArg<TFunc>>::frame(f.as_app()),
                <TCon as WithTypeArg<TIn>>::frame(x.as_app()),
            ),
            <TCon as WithTypeArg<TOut>>::frame(r),
        ),
        applied(
            <TCon as WithTypeArg<TFunc>>::elems(f.as_app()),
            <TCon as WithTypeArg<TIn>>::elems(x.as_app()),
            <TCon as WithTypeArg<TOut>>::elems(r),
        ),
{
    TCon::ap::<TIn, TOut, TFunc>(f.into_ref(), x.into_ref())
}

/// Combines every element of one borrowed container with every element of
/// another through `f`.
pub fn lift2<TCon, TIn1, TIn2, TOut, F: Fn(&TIn1, &TIn2) -> TOut, X1: TypeApp<TCon, TIn1>, X2: TypeApp<
    TCon,
    TIn2,
>>(f: F, x1: &X1, x2: &X2) -> (r: <TCon as WithTypeArg<TOut>>::Type) where
    TCon: Applicative + WithTypeArg<TIn1> + WithTypeArg<TIn2> + WithTypeArg<TOut>,

    requires
        callable_on_pairs(
            f,
            <TCon as WithTypeArg<TIn1>>::elems(x1.as_app()),
            <TCon as WithTypeArg<TIn2>>::elems(x2.as_app()),
        ),
    ensures
        TCon::copied_frame(
            TCon::zip_frame(
                <TCon as WithTypeArg<TIn1>>::frame(x1.as_app()),
                <TCon as WithTypeArg<TIn2>>::frame(x2.as_app()),
            ),
            <TCon as WithTypeArg<TOut>>::frame(r),
        ),
        product(
            f,
            <TCon as WithTypeArg<TIn1>>::elems(x1.as_app()),
            <TCon as WithTypeArg<TIn2>>::elems(x2.as_app()),
            <TCon as WithTypeArg<TOut>>::elems(r),
        ),
{
    TCon::lift2(f, x1.into_ref(), x2.into_ref())
}

} // verus!
