//! The worked example written the plain-Rust way: one handwritten
//! error enum and `From` conversions, no sum-type machinery at all.

use vstd::prelude::*;

use crate::scenario::{read_number, spec_check, spec_read, IoError, Outcome};
use crate::text::ParseIntError;
use crate::enumx::Enum2;

verus! {

/// The one error enum wrapping every failure of the check.
#[derive(Debug, PartialEq, Eq)]
pub enum Error {
    IO(IoError),
    Parse(ParseIntError),
    Calc(u32, u32),
}

impl From<IoError> for Error {
    fn from(e: IoError) -> (r: Error) {
        Error::IO(e)
    }
}

impl vstd::std_specs::convert::FromSpecImpl<IoError> for Error {
    open spec fn obeys_from_spec() -> bool {
        true
    }

    open spec fn from_spec(e: IoError) -> Error {
        Error::IO(e)
    }
}

impl From<ParseIntError> for Error {
    fn from(e: ParseIntError) -> (r: Error) {
        Error::Parse(e)
    }
}

impl vstd::std_specs::convert::FromSpecImpl<ParseIntError> for Error {
    open spec fn obeys_from_spec() -> bool {
        true
    }

    open spec fn from_spec(e: ParseIntError) -> Error {
        Error::Parse(e)
    }
}

impl From<(u32, u32)> for Error {
    fn from(pair: (u32, u32)) -> (r: Error) {
        Error::Calc(pair.0, pair.1)
    }
}

impl vstd::std_specs::convert::FromSpecImpl<(u32, u32)> for Error {
    open spec fn obeys_from_spec() -> bool {
        true
    }

    open spec fn from_spec(pair: (u32, u32)) -> Error {
        Error::Calc(pair.0, pair.1)
    }
}

/// The read error wrapped into this module's enum.
pub open spec fn wrap_read_err(e: Enum2<IoError, ParseIntError>) -> Error {
    match e {
        Enum2::_0(io) => Error::IO(io),
        Enum2::_1(pe) => Error::Parse(pe),
    }
}

/// Reads a number out of a fetched text, wrapping any failure.
pub fn read_u32(text: Result<String, IoError>) -> (r: Result<u32, Error>)
    ensures
        (match (spec_read(text), r) {
            (Ok(n), Ok(m)) => m == n,
            (Err(e), Err(c)) => c == wrap_read_err(e),
            _ => false,
        }),
{
    match read_number(text) {
        Ok(n) => Ok(n),
        Err(e) => match e {
            Enum2::_0(io) => Err(Error::from(io)),
            Enum2::_1(pe) => Err(Error::from(pe)),
        },
    }
}

/// Checks that the first two numbers multiply to the third, wrapping
/// any failure into the one error enum.
pub fn a_mul_b_eq_c(
    a_text: Result<String, IoError>,
    b_text: Result<String, IoError>,
    c_text: Result<String, IoError>,
) -> (r: Result<bool, Error>)
    ensures
        (match (spec_check(a_text, b_text, c_text), r) {
            (Outcome::Done(v), Ok(w)) => w == v,
            (Outcome::BadFirst(e), Err(c)) => c == wrap_read_err(e),
            (Outcome::BadSecond(e), Err(c)) => c == wrap_read_err(e),
            (Outcome::BadThird(pe), Err(c)) => c == Error::Parse(pe),
            (Outcome::Overflow(a, b), Err(c)) => c == Error::Calc(a, b),
            _ => false,
        }),
{
    let a = match read_u32(a_text) {
        Ok(v) => v,
        Err(error) => {
            return Err(error);
        },
    };

    let b = match read_u32(b_text) {
        Ok(v) => v,
        Err(error) => {
            if a == 0 {
                0
            } else {
                return Err(error);
            }
        },
    };

    let c = match read_u32(c_text) {
        Ok(v) => v,
        Err(error) => match error {
            Error::IO(_) => 0,
            Error::Parse(_) => {
                return Err(error);
            },
            Error::Calc(_, _) => {
                proof {
                    assert(false);
                }
                0
            },
        },
    };

    match a.checked_mul(b) {
        Some(p) => Ok(p == c),
        None => Err(Error::from((a, b))),
    }
}

} // verus!
