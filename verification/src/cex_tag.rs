//! The worked example written with named error enums and the plain
//! error channel: no records travel, the error sets are user-declared
//! enums bridged into the exchange algebra.

use vstd::prelude::*;

use crate::enumx::proto::{Proto2, Proto3};
use crate::enumx::{Enum2, ExchangeInto, FromVariant, Proto, V0, V1, V2};
use crate::scenario::{read_number, spec_check, spec_read, IoError, MulOverflow, Outcome};
use crate::text::ParseIntError;
use crate::Error;

verus! {

/// What reading a number can throw.
#[derive(Debug, PartialEq, Eq)]
pub enum ReadU32Error {
    IO(IoError),
    Parse(ParseIntError),
}

/// What the whole check can throw.
#[derive(Debug, PartialEq, Eq)]
pub enum AMulBEqCError {
    IO(IoError),
    Parse(ParseIntError),
    Overflow(MulOverflow),
}

impl FromVariant<IoError, V0> for ReadU32Error {
    open spec fn spec_from_variant(variant: IoError) -> Self {
        ReadU32Error::IO(variant)
    }

    fn from_variant(variant: IoError) -> (r: Self) {
        ReadU32Error::IO(variant)
    }
}

impl FromVariant<ParseIntError, V1> for ReadU32Error {
    open spec fn spec_from_variant(variant: ParseIntError) -> Self {
        ReadU32Error::Parse(variant)
    }

    fn from_variant(variant: ParseIntError) -> (r: Self) {
        ReadU32Error::Parse(variant)
    }
}

impl Proto for ReadU32Error {
    type Type = Proto2<IoError, ParseIntError>;

    open spec fn spec_from_proto(src: Proto2<IoError, ParseIntError>) -> Self {
        match src {
            Proto2::_0(v) => ReadU32Error::IO(v),
            Proto2::_1(v) => ReadU32Error::Parse(v),
        }
    }

    open spec fn spec_into_proto(self) -> Proto2<IoError, ParseIntError> {
        match self {
            ReadU32Error::IO(v) => Proto2::_0(v),
            ReadU32Error::Parse(v) => Proto2::_1(v),
        }
    }

    fn from_proto(src: Proto2<IoError, ParseIntError>) -> (r: Self) {
        match src {
            Proto2::_0(v) => ReadU32Error::IO(v),
            Proto2::_1(v) => ReadU32Error::Parse(v),
        }
    }

    fn into_proto(self) -> (r: Proto2<IoError, ParseIntError>) {
        match self {
            ReadU32Error::IO(v) => Proto2::_0(v),
            ReadU32Error::Parse(v) => Proto2::_1(v),
        }
    }
}

impl FromVariant<IoError, V0> for AMulBEqCError {
    open spec fn spec_from_variant(variant: IoError) -> Self {
        AMulBEqCError::IO(variant)
    }

    fn from_variant(variant: IoError) -> (r: Self) {
        AMulBEqCError::IO(variant)
    }
}

impl FromVariant<ParseIntError, V1> for AMulBEqCError {
    open spec fn spec_from_variant(variant: ParseIntError) -> Self {
        AMulBEqCError::Parse(variant)
    }

    fn from_variant(variant: ParseIntError) -> (r: Self) {
        AMulBEqCError::Parse(variant)
    }
}

impl FromVariant<MulOverflow, V2> for AMulBEqCError {
    open spec fn spec_from_variant(variant: MulOverflow) -> Self {
        AMulBEqCError::Overflow(variant)
    }

    fn from_variant(variant: MulOverflow) -> (r: Self) {
        AMulBEqCError::Overflow(variant)
    }
}

impl Proto for AMulBEqCError {
    type Type = Proto3<IoError, ParseIntError, MulOverflow>;

    open spec fn spec_from_proto(src: Proto3<IoError, ParseIntError, MulOverflow>) -> Self {
        match src {
            Proto3::_0(v) => AMulBEqCError::IO(v),
            Proto3::_1(v) => AMulBEqCError::Parse(v),
            Proto3::_2(v) => AMulBEqCError::Overflow(v),
        }
    }

    open spec fn spec_into_proto(self) -> Proto3<IoError, ParseIntError, MulOverflow> {
        match self {
            AMulBEqCError::IO(v) => Proto3::_0(v),
            AMulBEqCError::Parse(v) => Proto3::_1(v),
            AMulBEqCError::Overflow(v) => Proto3::_2(v),
        }
    }

    fn from_proto(src: Proto3<IoError, ParseIntError, MulOverflow>) -> (r: Self) {
        match src {
            Proto3::_0(v) => AMulBEqCError::IO(v),
            Proto3::_1(v) => AMulBEqCError::Parse(v),
            Proto3::_2(v) => AMulBEqCError::Overflow(v),
        }
    }

    fn into_proto(self) -> (r: Proto3<IoError, ParseIntError, MulOverflow>) {
        match self {
            AMulBEqCError::IO(v) => Proto3::_0(v),
            AMulBEqCError::Parse(v) => Proto3::_1(v),
            AMulBEqCError::Overflow(v) => Proto3::_2(v),
        }
    }
}

/// The read error as this module's enum names it.
pub open spec fn to_read_err(e: Enum2<IoError, ParseIntError>) -> ReadU32Error {
    match e {
        Enum2::_0(io) => ReadU32Error::IO(io),
        Enum2::_1(pe) => ReadU32Error::Parse(pe),
    }
}

/// The read error widened into the check's enum.
pub open spec fn to_check_err(e: Enum2<IoError, ParseIntError>) -> AMulBEqCError {
    match e {
        Enum2::_0(io) => AMulBEqCError::IO(io),
        Enum2::_1(pe) => AMulBEqCError::Parse(pe),
    }
}

/// Reads a number out of a fetched text, throwing this module's named
/// error enum.
pub fn read_u32(text: Result<String, IoError>) -> (r: Result<u32, ReadU32Error>)
    ensures
        (match (spec_read(text), r) {
            (Ok(n), Ok(m)) => m == n,
            (Err(e), Err(c)) => c == to_read_err(e),
            _ => false,
        }),
{
    match read_number(text) {
        Ok(n) => Ok(n),
        Err(e) => match e {
            Enum2::_0(io) => io.error(),
            Enum2::_1(pe) => pe.error(),
        },
    }
}

/// The exchange of the named read error into the named check error
/// keeps each variant's payload under the matching name.
pub proof fn lemma_widen_named()
    ensures
        forall|e: ReadU32Error|
            #[trigger] <ReadU32Error as ExchangeInto<
                AMulBEqCError,
                crate::enumx::EnumToEnum<(V0, V1)>,
            >>::spec_exchange_into(e) == to_check_err(
                match e {
                    ReadU32Error::IO(io) => Enum2::_0(io),
                    ReadU32Error::Parse(pe) => Enum2::_1(pe),
                },
            ),
{
    assert forall|e: ReadU32Error|
        #[trigger] <ReadU32Error as ExchangeInto<
            AMulBEqCError,
            crate::enumx::EnumToEnum<(V0, V1)>,
        >>::spec_exchange_into(e) == to_check_err(
        match e {
            ReadU32Error::IO(io) => Enum2::_0(io),
            ReadU32Error::Parse(pe) => Enum2::_1(pe),
        },
    ) by {
        match e {
            ReadU32Error::IO(v) => {
                assert(e.spec_into_proto() == Proto2::<IoError, ParseIntError>::_0(v));
            },
            ReadU32Error::Parse(v) => {
                assert(e.spec_into_proto() == Proto2::<IoError, ParseIntError>::_1(v));
            },
        }
    }
}

/// Checks that the first two numbers multiply to the third, throwing
/// this module's named error enum.
pub fn a_mul_b_eq_c(
    a_text: Result<String, IoError>,
    b_text: Result<String, IoError>,
    c_text: Result<String, IoError>,
) -> (r: Result<bool, AMulBEqCError>)
    ensures
        (match (spec_check(a_text, b_text, c_text), r) {
            (Outcome::Done(v), Ok(w)) => w == v,
            (Outcome::BadFirst(e), Err(c)) => c == to_check_err(e),
            (Outcome::BadSecond(e), Err(c)) => c == to_check_err(e),
            (Outcome::BadThird(pe), Err(c)) => c == AMulBEqCError::Parse(pe),
            (Outcome::Overflow(a, b), Err(c)) => c == AMulBEqCError::Overflow(MulOverflow(a, b)),
            _ => false,
        }),
{
    proof {
        lemma_widen_named();
    }
    let a = match read_u32(a_text) {
        Ok(v) => v,
        Err(err) => {
            return err.error();
        },
    };

    let b = match read_u32(b_text) {
        Ok(v) => v,
        Err(err) => {
            if a == 0 {
                0
            } else {
                return err.error();
            }
        },
    };

    let c = match read_u32(c_text) {
        Ok(v) => v,
        Err(err) => match err {
            ReadU32Error::IO(_) => 0,
            ReadU32Error::Parse(e) => {
                return e.error();
            },
        },
    };

    match a.checked_mul(b) {
        Some(p) => Ok(p == c),
        None => MulOverflow(a, b).error(),
    }
}

/// What the odds-and-ends check can throw.
#[derive(Debug, PartialEq, Eq)]
pub enum CexErr {
    Code(i32),
    Text(&'static str),
}

impl FromVariant<i32, V0> for CexErr {
    open spec fn spec_from_variant(variant: i32) -> Self {
        CexErr::Code(variant)
    }

    fn from_variant(variant: i32) -> (r: Self) {
        CexErr::Code(variant)
    }
}

impl FromVariant<&'static str, V1> for CexErr {
    open spec fn spec_from_variant(variant: &'static str) -> Self {
        CexErr::Text(variant)
    }

    fn from_variant(variant: &'static str) -> (r: Self) {
        CexErr::Text(variant)
    }
}

fn bar() -> (r: Result<(), i32>)
    ensures
        r == Err::<(), i32>(42),
{
    Err(42)
}

/// A plain failure propagated into the named error enum.
pub fn misc() -> (r: Result<(), CexErr>)
    ensures
        r == Err::<(), CexErr>(CexErr::Code(42)),
{
    match bar() {
        Ok(v) => Ok(v),
        Err(n) => n.error(),
    }
}

} // verus!
