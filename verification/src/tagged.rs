//! Errors tagged with the records of their journey.
//!
//! `Cex` pairs an error set with the list of call-site records collected
//! while the error travelled outward.  `may_throw` starts such a tagged
//! error from a plain one, `may_rethrow` widens it at a call boundary,
//! and `rethrow_log` widens it while adding one record.

use vstd::prelude::*;

use crate::enumx::ExchangeInto;

verus! {

/// One call-site record of this style: module, file, position, and an
/// optional note.
#[derive(Clone, Debug, Default, PartialEq, Eq)]
pub struct Log {
    pub module: &'static str,
    pub file: &'static str,
    pub line: u32,
    pub column: u32,
    pub info: Option<String>,
}

impl Log {
    pub fn new(
        module: &'static str,
        file: &'static str,
        line: u32,
        column: u32,
        info: Option<String>,
    ) -> (r: Self)
        ensures
            r == (Log { module, file, line, column, info }),
    {
        Log { module, file, line, column, info }
    }
}

/// Whether two records name the same call site.
pub open spec fn same_site(a: Log, b: Log) -> bool {
    a.module == b.module && a.file == b.file && a.line == b.line && a.column == b.column
}

/// Whether `l` is `site` carrying the note `msg`.
pub open spec fn noted(site: Log, msg: Seq<char>, l: Log) -> bool {
    same_site(site, l) && match l.info {
        Some(m) => m@ == msg,
        None => false,
    }
}

/// Whether `l` is `site` without a note.
pub open spec fn plain(site: Log, l: Log) -> bool {
    same_site(site, l) && l.info is None
}

/// An error set together with the records collected so far.
#[derive(Debug, PartialEq, Eq)]
pub struct Cex<E> {
    pub error: E,
    pub logs: Vec<Log>,
}

impl<E> Cex<E> {
    /// Widens the error set and appends one record: a rethrow that logs.
    pub fn rethrow_log<F, I>(self, item: Log) -> (r: Cex<F>) where E: ExchangeInto<F, I>
        ensures
            r.error == self.error.spec_exchange_into(),
            r.logs@ == self.logs@.push(item),
    {
        let mut logs = self.logs;
        logs.push(item);
        Cex { error: self.error.exchange_into(), logs }
    }
}

/// Wraps a bare error with no records: a throw.
pub fn thrown<E, F, I>(e: E) -> (r: Cex<F>) where E: ExchangeInto<F, I>
    ensures
        r.error == e.spec_exchange_into(),
        r.logs@.len() == 0,
{
    Cex { error: e.exchange_into(), logs: Vec::new() }
}

/// Starts a tagged error from the failure of a plain result.
pub trait MayThrow<T, E>: Sized {
    /// How the receiver reads as a result.
    spec fn may_throw_src(self) -> Result<T, E>;

    fn may_throw<F, I>(self) -> (r: Result<T, Cex<F>>) where E: ExchangeInto<F, I>
        ensures
            (match (self.may_throw_src(), r) {
                (Ok(t), Ok(u)) => u == t,
                (Err(e), Err(c)) => c.error == e.spec_exchange_into() && c.logs@.len() == 0,
                _ => false,
            }),
    ;

    fn may_throw_log<F, I>(self, item: Log) -> (r: Result<T, Cex<F>>) where
        E: ExchangeInto<F, I>,

        ensures
            (match (self.may_throw_src(), r) {
                (Ok(t), Ok(u)) => u == t,
                (Err(e), Err(c)) => c.error == e.spec_exchange_into() && c.logs@ == seq![item],
                _ => false,
            }),
    ;
}

impl<T, E> MayThrow<T, E> for Result<T, E> {
    open spec fn may_throw_src(self) -> Result<T, E> {
        self
    }

    fn may_throw<F, I>(self) -> (r: Result<T, Cex<F>>) where E: ExchangeInto<F, I> {
        match self {
            Ok(t) => Ok(t),
            Err(e) => Err(Cex { error: e.exchange_into(), logs: Vec::new() }),
        }
    }

    fn may_throw_log<F, I>(self, item: Log) -> (r: Result<T, Cex<F>>) where
        E: ExchangeInto<F, I>,
     {
        match self {
            Ok(t) => Ok(t),
            Err(e) => {
                let mut logs: Vec<Log> = Vec::new();
                logs.push(item);
                proof {
                    assert(logs@ =~= seq![item]);
                }
                Err(Cex { error: e.exchange_into(), logs })
            },
        }
    }
}

/// Widens a tagged error at a call boundary, keeping its records.
pub trait MayRethrow<T, E>: Sized {
    /// How the receiver reads as a result.
    spec fn may_rethrow_src(self) -> Result<T, Cex<E>>;

    fn may_rethrow<F, I>(self) -> (r: Result<T, Cex<F>>) where E: ExchangeInto<F, I>
        ensures
            (match (self.may_rethrow_src(), r) {
                (Ok(t), Ok(u)) => u == t,
                (Err(c), Err(d)) => d.error == c.error.spec_exchange_into() && d.logs@ == c.logs@,
                _ => false,
            }),
    ;
}

impl<T, E> MayRethrow<T, E> for Result<T, Cex<E>> {
    open spec fn may_rethrow_src(self) -> Result<T, Cex<E>> {
        self
    }

    fn may_rethrow<F, I>(self) -> (r: Result<T, Cex<F>>) where E: ExchangeInto<F, I> {
        match self {
            Ok(t) => Ok(t),
            Err(c) => Err(Cex { error: c.error.exchange_into(), logs: c.logs }),
        }
    }
}

} // verus!
