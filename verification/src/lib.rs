//! Checked-exception style error handling built on structural sum types.
//!
//! The crate has three layers:
//!
//! - `enumx`: an arity-indexed family of structural sum types (`Enum1` ..
//!   `Enum4`), traits to inject a bare value into a sum type at a resolved
//!   position (`FromVariant` / `IntoEnum`), and traits to widen a sum type
//!   into another whose variant set includes the source's
//!   (`ExchangeFrom` / `ExchangeInto`).  User-declared enums join the same
//!   algebra through `Proto`, an isomorphism with a structural prototype.
//! - `log`, `result`: the error channel itself — wrappers that attach
//!   provenance frames to propagated errors, and the `ret`/`throw`
//!   combinators that widen an error while returning it.
//! - `infer`, `expand`: the decisions of the compile-time rewriters,
//!   computed on identified types — the error channel a declared throw
//!   set resolves to, the positions an exchange lands on, the arms a
//!   type-pattern match generates, and the plans behind the enum-family,
//!   impl-family, derive and sum-collection generators.
//!
//! The remaining modules rewrite one worked example — read three
//! numbers, check that the first two multiply to the third — in the
//! propagation styles the error channel offers, each with an exact
//! contract over the shared model in `scenario`.

pub mod adhoc;
pub mod bridge;
pub mod ce;
pub mod cex_tag;
pub mod demo;
pub mod dyn_err;
pub mod enumx;
pub mod expand;
pub mod infer;
pub mod env_opt_logging;
pub mod locals;
pub mod log;
pub mod map_dyn_err;
pub mod named;
pub mod result;
pub mod scenario;
pub mod sugar;
pub mod tagged;
pub mod text;
pub mod wrapping_errors;

use vstd::prelude::*;

pub use dyn_err::{DynErr, MapDynErr, MapErrTo};
pub use enumx::{
    Enum1, Enum2, Enum3, Enum4, EnumToEnum, ExchangeFrom, ExchangeInto, FromVariant, IntoEnum,
    Proto, V0, V1, V2, V3,
};
pub use log::{
    Env, Frame, Log, LogAgent, Logger, MapErrLog, MapErrToLog, MapLog, MapToLog, NoLog, ToLog,
};
pub use result::{MapErrorLog, Ret, RetLog, Throw, ThrowLog};

verus! {

/// Wraps any error into an `Err` of a result whose error set includes
/// its type.
pub trait Error: Sized {
    fn error<T, Dest, Index>(self) -> (r: Result<T, Dest>) where Self: ExchangeInto<Dest, Index>
        ensures
            r == Err::<T, Dest>(self.spec_exchange_into()),
    ;
}

impl<E> Error for E {
    fn error<T, Dest, Index>(self) -> (r: Result<T, Dest>) where Self: ExchangeInto<Dest, Index> {
        Err(self.exchange_into())
    }
}

/// Widens the error of a result into a larger error set.
pub trait MapError<T, Src>: Sized {
    /// How the receiver reads as a result.
    spec fn map_error_src(self) -> Result<T, Src>;

    fn map_error<Dest, Indices>(self) -> (r: Result<T, Dest>) where
        Src: ExchangeInto<Dest, Indices>,

        ensures
            (match self.map_error_src() {
                Ok(t) => r == Ok::<T, Dest>(t),
                Err(e) => r == Err::<T, Dest>(e.spec_exchange_into()),
            }),
    ;
}

impl<T, Src> MapError<T, Src> for Result<T, Src> {
    open spec fn map_error_src(self) -> Result<T, Src> {
        self
    }

    fn map_error<Dest, Indices>(self) -> (r: Result<T, Dest>) where
        Src: ExchangeInto<Dest, Indices>,
     {
        match self {
            Ok(t) => Ok(t),
            Err(e) => Err(e.exchange_into()),
        }
    }
}

} // verus!
