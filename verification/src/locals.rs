//! Keeping local errors from leaking: a caller declares only its fatal
//! error set, and the local error set of an inner call is handled on
//! the spot, every unhandled variant being rethrown.

use vstd::prelude::*;

use crate::enumx::{Enum1, Enum2, Enum4};
use crate::result::Throw;

verus! {

/// A fatal failure of the first kind.
#[derive(Debug, PartialEq, Eq)]
pub struct A;

/// A fatal failure of the second kind.
#[derive(Debug, PartialEq, Eq)]
pub struct B;

/// A local failure of the first kind.
#[derive(Debug, PartialEq, Eq)]
pub struct C;

/// A local failure of the second kind.
#[derive(Debug, PartialEq, Eq)]
pub struct D;

pub fn may_throw_a() -> (r: Result<(), Enum1<A>>)
    ensures
        r == Ok::<(), Enum1<A>>(()),
{
    Ok(())
}

pub fn may_throw_b() -> (r: Result<(), Enum1<B>>)
    ensures
        r == Ok::<(), Enum1<B>>(()),
{
    Ok(())
}

pub fn may_throw_ab() -> (r: Result<(), Enum2<A, B>>)
    ensures
        r == Ok::<(), Enum2<A, B>>(()),
{
    Ok(())
}

pub fn may_throw_abcd() -> (r: Result<Result<(), Enum2<C, D>>, Enum2<A, B>>)
    ensures
        r == Ok::<Result<(), Enum2<C, D>>, Enum2<A, B>>(Ok::<(), Enum2<C, D>>(())),
{
    Ok(Ok(()))
}

pub fn may_throw_abcd_v2() -> (r: Result<(), Enum4<A, B, C, D>>)
    ensures
        r == Ok::<(), Enum4<A, B, C, D>>(()),
{
    Ok(())
}

fn handle_c(_c: C) {
}

fn handle_d(_d: D) {
}

/// Runs the fallible steps, handles the local failures on the spot, and
/// throws only the fatal ones — of which, here, none arises.
pub fn returns_only_fatal_errors_v4() -> (r: Result<(), Enum2<A, B>>)
    ensures
        r == Ok::<(), Enum2<A, B>>(()),
{
    match may_throw_a() {
        Ok(_) => (),
        Err(e) => match e {
            Enum1::_0(a) => {
                return a.throw();
            },
        },
    }
    match may_throw_b() {
        Ok(_) => (),
        Err(e) => match e {
            Enum1::_0(b) => {
                return b.throw();
            },
        },
    }
    match may_throw_ab() {
        Ok(_) => (),
        Err(e) => {
            return Err(e);
        },
    }

    match may_throw_abcd() {
        Err(e) => Err(e),
        Ok(inner) => match inner {
            Ok(v) => Ok(v),
            Err(local) => match local {
                Enum2::_0(c) => Ok(handle_c(c)),
                Enum2::_1(d) => Ok(handle_d(d)),
            },
        },
    }
}

/// As above, with one flat error set: the arms for the local failures
/// are written out, and the fatal ones are rethrown.
pub fn returns_only_fatal_errors_v5() -> (r: Result<(), Enum2<A, B>>)
    ensures
        r == Ok::<(), Enum2<A, B>>(()),
{
    match may_throw_a() {
        Ok(_) => (),
        Err(e) => match e {
            Enum1::_0(a) => {
                return a.throw();
            },
        },
    }
    match may_throw_b() {
        Ok(_) => (),
        Err(e) => match e {
            Enum1::_0(b) => {
                return b.throw();
            },
        },
    }
    match may_throw_ab() {
        Ok(_) => (),
        Err(e) => {
            return Err(e);
        },
    }

    match may_throw_abcd_v2() {
        Ok(v) => Ok(v),
        Err(e) => match e {
            Enum4::_0(a) => a.throw(),
            Enum4::_1(b) => b.throw(),
            Enum4::_2(c) => Ok(handle_c(c)),
            Enum4::_3(d) => Ok(handle_d(d)),
        },
    }
}

} // verus!
