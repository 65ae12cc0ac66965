//! Emulated type application: a tag stands for a container shape, and
//! `WithTypeArg<T>` projects it onto the concrete container of `T`.

use vstd::prelude::*;

verus! {

/// A type-constructor tag: a container shape whose element type is left open.
///
/// A container of the shape is modelled by its elements, in order, and by
/// its frame, which is whatever it holds besides its elements (the error of
/// a failed result; nothing for an optional value or a sequence).
pub trait Shape: Sized {
    type Frame;

    /// The frame of a container made by lifting one value.
    spec fn pure_frame() -> Self::Frame;

    /// The frame of a container that combines two containers of these frames.
    spec fn zip_frame(a: Self::Frame, b: Self::Frame) -> Self::Frame;

    /// The frame after binding a container of frame `a` through steps whose
    /// results have the frames `bs`, one for each element.
    spec fn bind_frame(a: Self::Frame, bs: Seq<Self::Frame>) -> Self::Frame;
}

/// The tag applied to the element type `T`.
pub trait WithTypeArg<T>: Shape {
    type Type;

    /// The elements of a container, in order.
    spec fn elems(x: Self::Type) -> Seq<T>;

    /// What a container holds besides its elements.
    spec fn frame(x: Self::Type) -> <Self as Shape>::Frame;
}

/// The element type of a concrete container.
pub trait TypeAppParam {
    type Param;
}

/// Witness that a concrete type is the tag `TCon` applied to `T`: the
/// conversions to and from the projection are the identity.
pub trait TypeApp<TCon: WithTypeArg<T>, T>: TypeAppParam + Sized {
    /// This value seen as the projection of `TCon` at `T`.
    spec fn as_app(self) -> <TCon as WithTypeArg<T>>::Type;

    fn into_val(self) -> (r: <TCon as WithTypeArg<T>>::Type)
        ensures
            r == self.as_app(),
    ;

    fn into_ref(&self) -> (r: &<TCon as WithTypeArg<T>>::Type)
        ensures
            *r == self.as_app(),
    ;

    fn from_val(x: <TCon as WithTypeArg<T>>::Type) -> (r: Self)
        ensures
            r.as_app() == x,
    ;
}

/// Marker of a borrowed argument in ownership-mode dispatch.
pub struct Ref {}

/// Marker of an owned argument in ownership-mode dispatch.
pub struct Val {}

/// A container of `TCon` at `T`, owned (`RefT = Val`) or borrowed
/// (`RefT = Ref`).
pub trait TypeAppMaybeRef<TCon: WithTypeArg<T>, T, RefT> {
}

impl<TCon: WithTypeArg<T>, T, X: TypeApp<TCon, T>> TypeAppMaybeRef<TCon, T, Val> for X {
}

impl<'a, TCon: WithTypeArg<T>, T, X: TypeApp<TCon, T>> TypeAppMaybeRef<TCon, T, Ref> for &'a X {
}

} // verus!
