//! The functor laws, proved for every shape from the contracts of the maps.

use vstd::prelude::*;
use crate::functor::{mapped, mapped_ref, Functor, LinearFunctor};
use crate::typeapp::WithTypeArg;

verus! {

/// Identity: mapping by value a function that returns its argument gives a
/// container with the elements and the frame of the input, for every shape.
pub proof fn law_lmap_identity<TCon, T, F: Fn(T) -> T>(
    f: F,
    x: <TCon as WithTypeArg<T>>::Type,
    r: <TCon as WithTypeArg<T>>::Type,
) where TCon: LinearFunctor + WithTypeArg<T>
    requires
        forall|a: T, b: T| f.ensures((a,), b) ==> b == a,
        <TCon as WithTypeArg<T>>::frame(r) == <TCon as WithTypeArg<T>>::frame(x),
        mapped(f, <TCon as WithTypeArg<T>>::elems(x), <TCon as WithTypeArg<T>>::elems(r)),
    ensures
        <TCon as WithTypeArg<T>>::elems(r) == <TCon as WithTypeArg<T>>::elems(x),
        <TCon as WithTypeArg<T>>::frame(r) == <TCon as WithTypeArg<T>>::frame(x),
{
    let xs = <TCon as WithTypeArg<T>>::elems(x);
    let rs = <TCon as WithTypeArg<T>>::elems(r);
    assert forall|i: int| 0 <= i < xs.len() implies rs[i] == xs[i] by {
        assert(f.ensures((xs[i],), rs[i]));
    }
    assert(rs =~= xs);
}

/// Identity by reference: mapping a function that returns a copy of the
/// referenced element gives the input back, for every shape whose frames
/// copy exactly.
pub proof fn law_fmap_identity<TCon, T, F: Fn(&T) -> T>(
    f: F,
    x: <TCon as WithTypeArg<T>>::Type,
    r: <TCon as WithTypeArg<T>>::Type,
) where TCon: Functor + WithTypeArg<T>
    requires
        forall|a: T, b: T| f.ensures((&a,), b) ==> b == a,
        forall|a: <TCon as crate::typeapp::Shape>::Frame, b: <TCon as crate::typeapp::Shape>::Frame|
            TCon::copied_frame(a, b) ==> a == b,
        TCon::copied_frame(<TCon as WithTypeArg<T>>::frame(x), <TCon as WithTypeArg<T>>::frame(r)),
        mapped_ref(f, <TCon as WithTypeArg<T>>::elems(x), <TCon as WithTypeArg<T>>::elems(r)),
    ensures
        <TCon as WithTypeArg<T>>::elems(r) == <TCon as WithTypeArg<T>>::elems(x),
        <TCon as WithTypeArg<T>>::frame(r) == <TCon as WithTypeArg<T>>::frame(x),
{
    let xs = <TCon as WithTypeArg<T>>::elems(x);
    let rs = <TCon as WithTypeArg<T>>::elems(r);
    assert forall|i: int| 0 <= i < xs.len() implies rs[i] == xs[i] by {
        assert(f.ensures((&xs[i],), rs[i]));
    }
    assert(rs =~= xs);
}

/// Composition: mapping `f` and then `g` by value gives the elements and the
/// frame that mapping their composition `h` once gives, for every shape,
/// where `f`, `g` and `h` compute the functions `fs`, `gs` and `gs` after `fs`.
pub proof fn law_lmap_composition<TCon, A, B, C, F: Fn(A) -> B, G: Fn(B) -> C, H: Fn(A) -> C>(
    f: F,
    g: G,
    h: H,
    fs: spec_fn(A) -> B,
    gs: spec_fn(B) -> C,
    x: <TCon as WithTypeArg<A>>::Type,
    y: <TCon as WithTypeArg<B>>::Type,
    z: <TCon as WithTypeArg<C>>::Type,
    w: <TCon as WithTypeArg<C>>::Type,
) where TCon: LinearFunctor + WithTypeArg<A> + WithTypeArg<B> + WithTypeArg<C>
    requires
        forall|a: A, b: B| f.ensures((a,), b) ==> b == fs(a),
        forall|b: B, c: C| g.ensures((b,), c) ==> c == gs(b),
        forall|a: A, c: C| h.ensures((a,), c) ==> c == gs(fs(a)),
        <TCon as WithTypeArg<B>>::frame(y) == <TCon as WithTypeArg<A>>::frame(x),
        mapped(f, <TCon as WithTypeArg<A>>::elems(x), <TCon as WithTypeArg<B>>::elems(y)),
        <TCon as WithTypeArg<C>>::frame(z) == <TCon as WithTypeArg<B>>::frame(y),
        mapped(g, <TCon as WithTypeArg<B>>::elems(y), <TCon as WithTypeArg<C>>::elems(z)),
        <TCon as WithTypeArg<C>>::frame(w) == <TCon as WithTypeArg<A>>::frame(x),
        mapped(h, <TCon as WithTypeArg<A>>::elems(x), <TCon as WithTypeArg<C>>::elems(w)),
    ensures
        <TCon as WithTypeArg<C>>::elems(z) == <TCon as WithTypeArg<C>>::elems(w),
        <TCon as WithTypeArg<C>>::frame(z) == <TCon as WithTypeArg<C>>::frame(w),
{
    let xs = <TCon as WithTypeArg<A>>::elems(x);
    let ys = <TCon as WithTypeArg<B>>::elems(y);
    let zs = <TCon as WithTypeArg<C>>::elems(z);
    let ws = <TCon as WithTypeArg<C>>::elems(w);
    assert forall|i: int| 0 <= i < zs.len() implies zs[i] == ws[i] by {
        assert(f.ensures((xs[i],), ys[i]));
        assert(g.ensures((ys[i],), zs[i]));
        assert(h.ensures((xs[i],), ws[i]));
    }
    assert(zs =~= ws);
}

/// Composition by reference: mapping `f` and then `g` gives what mapping
/// their composition `h` once gives, for every shape whose frames copy
/// exactly, where `f`, `g` and `h` compute `fs`, `gs` and `gs` after `fs`.
pub proof fn law_fmap_composition<TCon, A, B, C, F: Fn(&A) -> B, G: Fn(&B) -> C, H: Fn(&A) -> C>(
    f: F,
    g: G,
    h: H,
    fs: spec_fn(A) -> B,
    gs: spec_fn(B) -> C,
    x: <TCon as WithTypeArg<A>>::Type,
    y: <TCon as WithTypeArg<B>>::Type,
    z: <TCon as WithTypeArg<C>>::Type,
    w: <TCon as WithTypeArg<C>>::Type,
) where TCon: Functor + WithTypeArg<A> + WithTypeArg<B> + WithTypeArg<C>
    requires
        forall|a: A, b: B| f.ensures((&a,), b) ==> b == fs(a),
        forall|b: B, c: C| g.ensures((&b,), c) ==> c == gs(b),
        forall|a: A, c: C| h.ensures((&a,), c) ==> c == gs(fs(a)),
        forall|a: <TCon as crate::typeapp::Shape>::Frame, b: <TCon as crate::typeapp::Shape>::Frame|
            TCon::copied_frame(a, b) ==> a == b,
        TCon::copied_frame(<TCon as WithTypeArg<A>>::frame(x), <TCon as WithTypeArg<B>>::frame(y)),
        mapped_ref(f, <TCon as WithTypeArg<A>>::elems(x), <TCon as WithTypeArg<B>>::elems(y)),
        TCon::copied_frame(<TCon as WithTypeArg<B>>::frame(y), <TCon as WithTypeArg<C>>::frame(z)),
        mapped_ref(g, <TCon as WithTypeArg<B>>::elems(y), <TCon as WithTypeArg<C>>::elems(z)),
        TCon::copied_frame(<TCon as WithTypeArg<A>>::frame(x), <TCon as WithTypeArg<C>>::frame(w)),
        mapped_ref(h, <TCon as WithTypeArg<A>>::elems(x), <TCon as WithTypeArg<C>>::elems(w)),
    ensures
        <TCon as WithTypeArg<C>>::elems(z) == <TCon as WithTypeArg<C>>::elems(w),
        <TCon as WithTypeArg<C>>::frame(z) == <TCon as WithTypeArg<C>>::frame(w),
{
    let xs = <TCon as WithTypeArg<A>>::elems(x);
    let ys = <TCon as WithTypeArg<B>>::elems(y);
    let zs = <TCon as WithTypeArg<C>>::elems(z);
    let ws = <TCon as WithTypeArg<C>>::elems(w);
    assert forall|i: int| 0 <= i < zs.len() implies zs[i] == ws[i] by {
        assert(f.ensures((&xs[i],), ys[i]));
        assert(g.ensures((&ys[i],), zs[i]));
        assert(h.ensures((&xs[i],), ws[i]));
    }
    assert(zs =~= ws);
}

/// The two maps agree: mapping by reference a function that computes `fs`
/// on the referenced element gives what mapping by value a function that
/// computes `fs` gives, for every shape whose frames copy exactly.
pub proof fn law_fmap_agrees_with_lmap<TCon, A, B, F: Fn(&A) -> B, G: Fn(A) -> B>(
    f: F,
    g: G,
    fs: spec_fn(A) -> B,
    x: <TCon as WithTypeArg<A>>::Type,
    by_ref: <TCon as WithTypeArg<B>>::Type,
    by_value: <TCon as WithTypeArg<B>>::Type,
) where TCon: Functor + WithTypeArg<A> + WithTypeArg<B>
    requires
        forall|a: A, b: B| f.ensures((&a,), b) ==> b == fs(a),
        forall|a: A, b: B| g.ensures((a,), b) ==> b == fs(a),
        forall|a: <TCon as crate::typeapp::Shape>::Frame, b: <TCon as crate::typeapp::Shape>::Frame|
            TCon::copied_frame(a, b) ==> a == b,
        TCon::copied_frame(<TCon as WithTypeArg<A>>::frame(x), <TCon as WithTypeArg<B>>::frame(by_ref)),
        mapped_ref(f, <TCon as WithTypeArg<A>>::elems(x), <TCon as WithTypeArg<B>>::elems(by_ref)),
        <TCon as WithTypeArg<B>>::frame(by_value) == <TCon as WithTypeArg<A>>::frame(x),
        mapped(g, <TCon as WithTypeArg<A>>::elems(x), <TCon as WithTypeArg<B>>::elems(by_value)),
    ensures
        <TCon as WithTypeArg<B>>::elems(by_ref) == <TCon as WithTypeArg<B>>::elems(by_value),
        <TCon as WithTypeArg<B>>::frame(by_ref) == <TCon as WithTypeArg<B>>::frame(by_value),
{
    let xs = <TCon as WithTypeArg<A>>::elems(x);
    let rs = <TCon as WithTypeArg<B>>::elems(by_ref);
    let vs = <TCon as WithTypeArg<B>>::elems(by_value);
    assert forall|i: int| 0 <= i < rs.len() implies rs[i] == vs[i] by {
        assert(f.ensures((&xs[i],), rs[i]));
        assert(g.ensures((xs[i],), vs[i]));
    }
    assert(rs =~= vs);
}

} // verus!
