//! The worked example shared by the error-channel demonstrations:
//! read three numbers out of three texts and check that the first two
//! multiply to the third.
//!
//! Each demonstration module rewrites this same little program in one
//! propagation style; the model here says, once, what reading a number
//! returns and what the whole check decides.

use vstd::prelude::*;

use crate::enumx::{Enum2, Enum3};
use crate::text::{parse_u32, spec_parse_u32, spec_trim, trim, ParseIntError};

verus! {

/// Why a text could not be fetched at all.
#[derive(Clone, Copy, Debug, PartialEq, Eq)]
pub enum IoErrorKind {
    NotFound,
}

/// The fetch failure handed in by whoever read the file.
#[derive(Clone, Copy, Debug, PartialEq, Eq)]
pub struct IoError {
    pub kind: IoErrorKind,
}

/// A multiplication that left `u32`: the two factors.
#[derive(Clone, Copy, Debug, PartialEq, Eq)]
pub struct MulOverflow(pub u32, pub u32);

/// What reading a number out of a fetched text returns: the fetch error
/// as it came, or the number parsed from the trimmed text.
pub open spec fn spec_read(text: Result<String, IoError>) -> Result<
    u32,
    Enum2<IoError, ParseIntError>,
> {
    match text {
        Err(e) => Err(Enum2::_0(e)),
        Ok(s) => match spec_parse_u32(spec_trim(s@)) {
            Ok(n) => Ok(n as u32),
            Err(k) => Err(Enum2::_1(ParseIntError { kind: k })),
        },
    }
}

/// Reads a number out of a fetched text, as `spec_read` says.
pub fn read_number(text: Result<String, IoError>) -> (r: Result<
    u32,
    Enum2<IoError, ParseIntError>,
>)
    ensures
        r == spec_read(text),
{
    match text {
        Err(e) => Err(Enum2::_0(e)),
        Ok(s) => {
            let t = trim(s.as_str());
            match parse_u32(t) {
                Ok(n) => Ok(n),
                Err(e) => Err(Enum2::_1(e)),
            }
        },
    }
}

/// How the whole check ends.
///
/// A fetch or parse failure on the first text ends it; one on the second
/// is forgiven when the first number is zero; a fetch failure on the
/// third counts as zero while a parse failure still ends it; then the
/// product is taken, overflow ends it, and otherwise the check says
/// whether the product equals the third number.
pub enum Outcome {
    BadFirst(Enum2<IoError, ParseIntError>),
    BadSecond(Enum2<IoError, ParseIntError>),
    BadThird(ParseIntError),
    Overflow(u32, u32),
    Done(bool),
}

/// What is decided once the first two numbers are known: a parse
/// failure on the third text still ends the check, a fetch failure
/// counts as zero, and then the product is compared.
pub open spec fn spec_check_tail(a: u32, b: u32, c_text: Result<String, IoError>) -> Outcome {
    match spec_read(c_text) {
        Err(Enum2::_1(pe)) => Outcome::BadThird(pe),
        rc => {
            let c = match rc {
                Ok(v) => v,
                Err(_) => 0u32,
            };
            if a * b > u32::MAX {
                Outcome::Overflow(a, b)
            } else {
                Outcome::Done(a * b == c)
            }
        },
    }
}

/// What the check decides on three fetched texts.
pub open spec fn spec_check(
    a_text: Result<String, IoError>,
    b_text: Result<String, IoError>,
    c_text: Result<String, IoError>,
) -> Outcome {
    match spec_read(a_text) {
        Err(e) => Outcome::BadFirst(e),
        Ok(a) => match spec_read(b_text) {
            Ok(b) => spec_check_tail(a, b, c_text),
            Err(e) => if a != 0 {
                Outcome::BadSecond(e)
            } else {
                spec_check_tail(a, 0, c_text)
            },
        },
    }
}

/// The read error widened into the check's three-variant error set.
pub open spec fn spec_widen(e: Enum2<IoError, ParseIntError>) -> Enum3<
    IoError,
    ParseIntError,
    MulOverflow,
> {
    match e {
        Enum2::_0(io) => Enum3::_0(io),
        Enum2::_1(pe) => Enum3::_1(pe),
    }
}

} // verus!
