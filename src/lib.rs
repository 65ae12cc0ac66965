//! Container-generic programming over type-constructor tags: functors,
//! applicatives, monads, folds and traversals for `Option`, `Vec` and
//! `Result`, with every operation specified over a model of the container.

pub mod typeapp;
pub mod impls;
pub mod functor;
pub mod applicative;
pub mod monad;
pub mod foldable;
pub mod traversable;
pub mod laws;
pub mod semigroup;
pub mod ext;

pub use typeapp::{Ref, Shape, TypeApp, TypeAppMaybeRef, TypeAppParam, Val, WithTypeArg};
pub use functor::{fmap, fmapconst, lmap, lmapconst, Functor, LinearFunctor, MapExt};
pub use applicative::{ap, lap, lift, lift2, lift_c, llift2, Applicative, Lift, SingletonApplicative};
pub use monad::{bind, bind_c, bind_ignore, fjoin, lbind, lbind_ignore, LinearMonad, Monad};
pub use foldable::{foldr, lfoldr, Foldable, LinearFoldable};
pub use traversable::{sequence, traverse, LinearTraversable};
pub use semigroup::Semigroup;
pub use ext::{SizedExt, UnsizedExt};
