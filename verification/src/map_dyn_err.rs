//! The worked example with a dynamic error: fetch failures give up
//! their precise type and travel as the opaque `DynErr`, while parse
//! failures keep theirs.

use vstd::prelude::*;
use vstd::string::StringExecFns;

use crate::dyn_err::DynErr;
use crate::enumx::proto::{Proto2, Proto3};
use crate::enumx::{FromVariant, Proto, V0, V1, V2};
use crate::scenario::{read_number, spec_check, spec_read, IoError, MulOverflow, Outcome};
use crate::text::ParseIntError;
use crate::enumx::Enum2;
use crate::Error;

verus! {

/// The description a fetch failure folds to.
pub open spec fn not_found_text() -> Seq<char> {
    "entity not found"@
}

/// The opaque error a fetch failure folds to.
fn dyn_not_found() -> (r: DynErr)
    ensures
        r.description@ == not_found_text(),
{
    DynErr { description: <String as StringExecFns>::from_str("entity not found") }
}

impl From<IoError> for DynErr {
    fn from(_e: IoError) -> (r: DynErr) {
        dyn_not_found()
    }
}

impl vstd::std_specs::convert::FromSpecImpl<IoError> for DynErr {
    open spec fn obeys_from_spec() -> bool {
        false
    }

    open spec fn from_spec(e: IoError) -> DynErr {
        vstd::pervasive::arbitrary()
    }
}

/// What reading a number can throw here.
#[derive(Debug, PartialEq, Eq)]
pub enum ReadU32Error {
    Parse(ParseIntError),
    Other(DynErr),
}

/// What the whole check can throw here.
#[derive(Debug, PartialEq, Eq)]
pub enum AMulBEqCError {
    Parse(ParseIntError),
    Overflow(MulOverflow),
    Other(DynErr),
}

impl FromVariant<ParseIntError, V0> for ReadU32Error {
    open spec fn spec_from_variant(variant: ParseIntError) -> Self {
        ReadU32Error::Parse(variant)
    }

    fn from_variant(variant: ParseIntError) -> (r: Self) {
        ReadU32Error::Parse(variant)
    }
}

impl FromVariant<DynErr, V1> for ReadU32Error {
    open spec fn spec_from_variant(variant: DynErr) -> Self {
        ReadU32Error::Other(variant)
    }

    fn from_variant(variant: DynErr) -> (r: Self) {
        ReadU32Error::Other(variant)
    }
}

impl Proto for ReadU32Error {
    type Type = Proto2<ParseIntError, DynErr>;

    open spec fn spec_from_proto(src: Proto2<ParseIntError, DynErr>) -> Self {
        match src {
            Proto2::_0(v) => ReadU32Error::Parse(v),
            Proto2::_1(v) => ReadU32Error::Other(v),
        }
    }

    open spec fn spec_into_proto(self) -> Proto2<ParseIntError, DynErr> {
        match self {
            ReadU32Error::Parse(v) => Proto2::_0(v),
            ReadU32Error::Other(v) => Proto2::_1(v),
        }
    }

    fn from_proto(src: Proto2<ParseIntError, DynErr>) -> (r: Self) {
        match src {
            Proto2::_0(v) => ReadU32Error::Parse(v),
            Proto2::_1(v) => ReadU32Error::Other(v),
        }
    }

    fn into_proto(self) -> (r: Proto2<ParseIntError, DynErr>) {
        match self {
            ReadU32Error::Parse(v) => Proto2::_0(v),
            ReadU32Error::Other(v) => Proto2::_1(v),
        }
    }
}

impl FromVariant<ParseIntError, V0> for AMulBEqCError {
    open spec fn spec_from_variant(variant: ParseIntError) -> Self {
        AMulBEqCError::Parse(variant)
    }

    fn from_variant(variant: ParseIntError) -> (r: Self) {
        AMulBEqCError::Parse(variant)
    }
}

impl FromVariant<MulOverflow, V1> for AMulBEqCError {
    open spec fn spec_from_variant(variant: MulOverflow) -> Self {
        AMulBEqCError::Overflow(variant)
    }

    fn from_variant(variant: MulOverflow) -> (r: Self) {
        AMulBEqCError::Overflow(variant)
    }
}

impl FromVariant<DynErr, V2> for AMulBEqCError {
    open spec fn spec_from_variant(variant: DynErr) -> Self {
        AMulBEqCError::Other(variant)
    }

    fn from_variant(variant: DynErr) -> (r: Self) {
        AMulBEqCError::Other(variant)
    }
}

impl Proto for AMulBEqCError {
    type Type = Proto3<ParseIntError, MulOverflow, DynErr>;

    open spec fn spec_from_proto(src: Proto3<ParseIntError, MulOverflow, DynErr>) -> Self {
        match src {
            Proto3::_0(v) => AMulBEqCError::Parse(v),
            Proto3::_1(v) => AMulBEqCError::Overflow(v),
            Proto3::_2(v) => AMulBEqCError::Other(v),
        }
    }

    open spec fn spec_into_proto(self) -> Proto3<ParseIntError, MulOverflow, DynErr> {
        match self {
            AMulBEqCError::Parse(v) => Proto3::_0(v),
            AMulBEqCError::Overflow(v) => Proto3::_1(v),
            AMulBEqCError::Other(v) => Proto3::_2(v),
        }
    }

    fn from_proto(src: Proto3<ParseIntError, MulOverflow, DynErr>) -> (r: Self) {
        match src {
            Proto3::_0(v) => AMulBEqCError::Parse(v),
            Proto3::_1(v) => AMulBEqCError::Overflow(v),
            Proto3::_2(v) => AMulBEqCError::Other(v),
        }
    }

    fn into_proto(self) -> (r: Proto3<ParseIntError, MulOverflow, DynErr>) {
        match self {
            AMulBEqCError::Parse(v) => Proto3::_0(v),
            AMulBEqCError::Overflow(v) => Proto3::_1(v),
            AMulBEqCError::Other(v) => Proto3::_2(v),
        }
    }
}

/// Reads a number out of a fetched text; a fetch failure becomes an
/// opaque dynamic error, a parse failure keeps its type.
pub fn read_u32(text: Result<String, IoError>) -> (r: Result<u32, ReadU32Error>)
    ensures
        (match (spec_read(text), r) {
            (Ok(n), Ok(m)) => m == n,
            (Err(Enum2::_0(_)), Err(ReadU32Error::Other(d))) => d.description@
                == not_found_text(),
            (Err(Enum2::_1(pe)), Err(c)) => c == ReadU32Error::Parse(pe),
            _ => false,
        }),
{
    match read_number(text) {
        Ok(n) => Ok(n),
        Err(e) => match e {
            Enum2::_0(_io) => dyn_not_found().error(),
            Enum2::_1(pe) => pe.error(),
        },
    }
}

/// Checks that the first two numbers multiply to the third; fetch
/// failures travel as opaque dynamic errors.
pub fn a_mul_b_eq_c(
    a_text: Result<String, IoError>,
    b_text: Result<String, IoError>,
    c_text: Result<String, IoError>,
) -> (r: Result<bool, AMulBEqCError>)
    ensures
        (match (spec_check(a_text, b_text, c_text), r) {
            (Outcome::Done(v), Ok(w)) => w == v,
            (Outcome::BadFirst(Enum2::_0(_)), Err(AMulBEqCError::Other(d))) => d.description@
                == not_found_text(),
            (Outcome::BadFirst(Enum2::_1(pe)), Err(c)) => c == AMulBEqCError::Parse(pe),
            (Outcome::BadSecond(Enum2::_0(_)), Err(AMulBEqCError::Other(d))) => d.description@
                == not_found_text(),
            (Outcome::BadSecond(Enum2::_1(pe)), Err(c)) => c == AMulBEqCError::Parse(pe),
            (Outcome::BadThird(pe), Err(c)) => c == AMulBEqCError::Parse(pe),
            (Outcome::Overflow(a, b), Err(c)) => c == AMulBEqCError::Overflow(MulOverflow(a, b)),
            _ => false,
        }),
{
    proof {
        lemma_widen_dyn();
    }
    let a = match read_u32(a_text) {
        Ok(v) => v,
        Err(err) => {
            return err.error();
        },
    };

    let b = match read_u32(b_text) {
        Ok(v) => v,
        Err(err) => {
            if a == 0 {
                0
            } else {
                return err.error();
            }
        },
    };

    let c = match read_u32(c_text) {
        Ok(v) => v,
        Err(err) => match err {
            ReadU32Error::Other(_) => 0,
            ReadU32Error::Parse(e) => {
                return e.error();
            },
        },
    };

    match a.checked_mul(b) {
        Some(p) => Ok(p == c),
        None => MulOverflow(a, b).error(),
    }
}

/// The exchange of the read error into the check error keeps each
/// variant's payload under the matching name.
proof fn lemma_widen_dyn()
    ensures
        forall|e: ReadU32Error|
            #[trigger] <ReadU32Error as crate::enumx::ExchangeInto<
                AMulBEqCError,
                crate::enumx::EnumToEnum<(V0, V2)>,
            >>::spec_exchange_into(e) == (match e {
                ReadU32Error::Parse(pe) => AMulBEqCError::Parse(pe),
                ReadU32Error::Other(d) => AMulBEqCError::Other(d),
            }),
{
    assert forall|e: ReadU32Error|
        #[trigger] <ReadU32Error as crate::enumx::ExchangeInto<
            AMulBEqCError,
            crate::enumx::EnumToEnum<(V0, V2)>,
        >>::spec_exchange_into(e) == (match e {
        ReadU32Error::Parse(pe) => AMulBEqCError::Parse(pe),
        ReadU32Error::Other(d) => AMulBEqCError::Other(d),
    }) by {
        match e {
            ReadU32Error::Parse(v) => {
                assert(e.spec_into_proto() == Proto2::<ParseIntError, DynErr>::_0(v));
            },
            ReadU32Error::Other(v) => {
                assert(e.spec_into_proto() == Proto2::<ParseIntError, DynErr>::_1(v));
            },
        }
    }
}

} // verus!
