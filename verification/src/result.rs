//! The `ret` / `throw` combinators of the error channel.
//!
//! `ret` returns a value, Ok-wrapping it or widening the error of a
//! result; `throw` returns an error, widening it into the caller's
//! declared error set.  The `..._log` forms do the same and record one
//! provenance item on the way out.

use vstd::prelude::*;

use crate::enumx::ExchangeInto;
use crate::log::{Log, LogAgent, Logger, ToLog};

verus! {

/// Index type marking `ret` of a plain value.
pub struct _WrapOk;

/// Index type marking `throw` of a bare error.
pub struct _WrapErr<Index>(pub Index);

/// Index type marking `ret` of a result whose error is widened.
pub struct _MapErr<Index>(pub Index);

/// Returns a value from a function with a declared error set.
pub trait Ret<Type, Index>: Sized {
    /// What `ret` returns.
    spec fn spec_ret(self) -> Type;

    fn ret(self) -> (r: Type)
        ensures
            r == self.spec_ret(),
    ;
}

impl<T, E> Ret<Result<T, E>, _WrapOk> for T {
    open spec fn spec_ret(self) -> Result<T, E> {
        Ok(self)
    }

    fn ret(self) -> (r: Result<T, E>) {
        Ok(self)
    }
}

impl<T, E, F, Index> Ret<Result<T, F>, _MapErr<Index>> for Result<T, E> where
    E: ExchangeInto<F, Index>,
 {
    open spec fn spec_ret(self) -> Result<T, F> {
        match self {
            Ok(t) => Ok(t),
            Err(e) => Err(e.spec_exchange_into()),
        }
    }

    fn ret(self) -> (r: Result<T, F>) {
        match self {
            Ok(t) => Ok(t),
            Err(e) => Err(e.exchange_into()),
        }
    }
}

/// Returns an error from a function with a declared error set, widening
/// it into that set.
pub trait Throw<Type, Index>: Sized {
    /// What `throw` returns.
    spec fn spec_throw(self) -> Type;

    fn throw(self) -> (r: Type)
        ensures
            r == self.spec_throw(),
    ;
}

impl<T, E, F, I> Throw<Result<T, F>, _WrapErr<I>> for E where E: ExchangeInto<F, I> {
    open spec fn spec_throw(self) -> Result<T, F> {
        Err(self.spec_exchange_into())
    }

    fn throw(self) -> (r: Result<T, F>) {
        Err(self.exchange_into())
    }
}

/// Index type marking `throw_log` of an error not yet wrapped in `Log`.
pub struct _ToLog<Index>(pub Index);

/// Index type marking `throw_log` of an error already carrying a log.
pub struct _Log<Index>(pub Index);

/// Index type marking `ret_log` of a result whose error is wrapped.
pub struct _MapErrToLog<Index>(pub Index);

/// Index type marking `ret_log` of a result whose error carries a log.
pub struct _MapErrLog<Index>(pub Index);

/// `ret` with one provenance item recorded on the error path.
pub trait RetLog<Type, Agent, Index>: Sized where Agent: LogAgent {
    /// Relates the result of `ret_log` to its input and the item.
    spec fn ret_log_ens(self, item: Agent::Item, r: Type) -> bool;

    fn ret_log(self, item: Agent::Item) -> (r: Type)
        ensures
            self.ret_log_ens(item, r),
    ;
}

impl<T, E, A> RetLog<Result<T, E>, A, _WrapOk> for T where A: LogAgent {
    open spec fn ret_log_ens(self, item: A::Item, r: Result<T, E>) -> bool {
        r == Ok::<T, E>(self)
    }

    fn ret_log(self, _item: A::Item) -> (r: Result<T, E>) {
        Ok(self)
    }
}

impl<T, E, F, A, I> RetLog<Result<T, F>, A, _MapErrToLog<I>> for Result<T, E> where
    A: LogAgent,
    Log<E, A>: ExchangeInto<F, I>,
 {
    open spec fn ret_log_ens(self, item: A::Item, r: Result<T, F>) -> bool {
        match (self, r) {
            (Ok(t), Ok(u)) => u == t,
            (Err(e), Err(f)) => exists|l: Log<E, A>|
                l.error == e && A::is_create(item, l.agent) && f == #[trigger] l.spec_exchange_into(),
            _ => false,
        }
    }

    fn ret_log(self, item: A::Item) -> (r: Result<T, F>) {
        match self {
            Ok(t) => Ok(t),
            Err(e) => {
                let l = e.to_log(item);
                let ghost witness = l;
                let f = l.exchange_into();
                proof {
                    assert(witness.spec_exchange_into() == f);
                }
                Err(f)
            },
        }
    }
}

impl<T, E, F, A, I> RetLog<Result<T, F>, A, _MapErrLog<I>> for Result<T, E> where
    A: LogAgent,
    E: Logger<A> + ExchangeInto<F, I>,
 {
    open spec fn ret_log_ens(self, item: A::Item, r: Result<T, F>) -> bool {
        match (self, r) {
            (Ok(t), Ok(u)) => u == t,
            (Err(e), Err(f)) => exists|logged: E|
                e.logged(item, logged) && f == #[trigger] logged.spec_exchange_into(),
            _ => false,
        }
    }

    fn ret_log(self, item: A::Item) -> (r: Result<T, F>) {
        match self {
            Ok(t) => Ok(t),
            Err(e) => {
                let logged = e.log(item);
                let ghost witness = logged;
                let f = logged.exchange_into();
                proof {
                    assert(witness.spec_exchange_into() == f);
                }
                Err(f)
            },
        }
    }
}

/// `throw` with one provenance item recorded.
pub trait ThrowLog<Type, Agent, Index>: Sized where Agent: LogAgent {
    /// Relates the result of `throw_log` to its input and the item.
    spec fn throw_log_ens(self, item: Agent::Item, r: Type) -> bool;

    fn throw_log(self, item: Agent::Item) -> (r: Type)
        ensures
            self.throw_log_ens(item, r),
    ;
}

impl<T, E, F, A, I> ThrowLog<Result<T, F>, A, _ToLog<I>> for E where
    A: LogAgent,
    Log<E, A>: ExchangeInto<F, I>,
 {
    open spec fn throw_log_ens(self, item: A::Item, r: Result<T, F>) -> bool {
        match r {
            Err(f) => exists|l: Log<E, A>|
                l.error == self && A::is_create(item, l.agent) && f == #[trigger] l.spec_exchange_into(),
            Ok(_) => false,
        }
    }

    fn throw_log(self, item: A::Item) -> (r: Result<T, F>) {
        let l = self.to_log(item);
        let ghost witness = l;
        let f = l.exchange_into();
        proof {
            assert(witness.spec_exchange_into() == f);
        }
        Err(f)
    }
}

impl<T, E, F, A, I> ThrowLog<Result<T, F>, A, _Log<I>> for E where
    A: LogAgent,
    E: Logger<A> + ExchangeInto<F, I>,
 {
    open spec fn throw_log_ens(self, item: A::Item, r: Result<T, F>) -> bool {
        match r {
            Err(f) => exists|logged: E|
                self.logged(item, logged) && f == #[trigger] logged.spec_exchange_into(),
            Ok(_) => false,
        }
    }

    fn throw_log(self, item: A::Item) -> (r: Result<T, F>) {
        let logged = self.log(item);
        let ghost witness = logged;
        let f = logged.exchange_into();
        proof {
            assert(witness.spec_exchange_into() == f);
        }
        Err(f)
    }
}

/// `throw_log` lifted over a whole result: the `Ok` value passes through
/// and the error is thrown with one provenance item.
pub trait MapErrorLog<T, E, F, A, I>: Sized where A: LogAgent, E: ThrowLog<Result<T, F>, A, I> {
    /// Relates the result of `map_error_log` to its input and the item.
    spec fn map_error_log_ens(self, item: A::Item, r: Result<T, F>) -> bool;

    fn map_error_log(self, item: A::Item) -> (r: Result<T, F>)
        ensures
            self.map_error_log_ens(item, r),
    ;
}

impl<T, E, F, A, I> MapErrorLog<T, E, F, A, I> for Result<T, E> where
    A: LogAgent,
    E: ThrowLog<Result<T, F>, A, I>,
 {
    open spec fn map_error_log_ens(self, item: A::Item, r: Result<T, F>) -> bool {
        match self {
            Ok(t) => r == Ok::<T, F>(t),
            Err(e) => e.throw_log_ens(item, r),
        }
    }

    fn map_error_log(self, item: A::Item) -> (r: Result<T, F>) {
        match self {
            Ok(t) => Ok(t),
            Err(e) => e.throw_log(item),
        }
    }
}

} // verus!
