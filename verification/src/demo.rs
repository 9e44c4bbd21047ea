//! The worked example with logged error enums: each variant carries its
//! payload wrapped in a `Log`, so provenance frames accumulate inside
//! the error itself.

use vstd::prelude::*;

use crate::enumx::proto::{Proto2, Proto3};
use crate::enumx::{ExchangeInto, FromVariant, Proto, V0, V1, V2};
use crate::log::{frame_at, lemma_push_one, site_frame, Frame, Log, Logger, MapErrToLog, ToLog};
use crate::scenario::{read_number, spec_check, spec_read, IoError, MulOverflow, Outcome};
use crate::text::ParseIntError;
use crate::enumx::Enum2;
use crate::Error;
use crate::MapError;

verus! {

/// What reading a number can throw here: each failure with its frames.
#[derive(Debug, PartialEq, Eq)]
pub enum ReadU32Error {
    IO(Log<IoError>),
    Parse(Log<ParseIntError>),
}

/// What the whole check can throw here.
#[derive(Debug, PartialEq, Eq)]
pub enum AMulBEqCError {
    IO(Log<IoError>),
    Parse(Log<ParseIntError>),
    Overflow(Log<MulOverflow>),
}

impl FromVariant<Log<IoError>, V0> for ReadU32Error {
    open spec fn spec_from_variant(variant: Log<IoError>) -> Self {
        ReadU32Error::IO(variant)
    }

    fn from_variant(variant: Log<IoError>) -> (r: Self) {
        ReadU32Error::IO(variant)
    }
}

impl FromVariant<Log<ParseIntError>, V1> for ReadU32Error {
    open spec fn spec_from_variant(variant: Log<ParseIntError>) -> Self {
        ReadU32Error::Parse(variant)
    }

    fn from_variant(variant: Log<ParseIntError>) -> (r: Self) {
        ReadU32Error::Parse(variant)
    }
}

impl Proto for ReadU32Error {
    type Type = Proto2<Log<IoError>, Log<ParseIntError>>;

    open spec fn spec_from_proto(src: Proto2<Log<IoError>, Log<ParseIntError>>) -> Self {
        match src {
            Proto2::_0(v) => ReadU32Error::IO(v),
            Proto2::_1(v) => ReadU32Error::Parse(v),
        }
    }

    open spec fn spec_into_proto(self) -> Proto2<Log<IoError>, Log<ParseIntError>> {
        match self {
            ReadU32Error::IO(v) => Proto2::_0(v),
            ReadU32Error::Parse(v) => Proto2::_1(v),
        }
    }

    fn from_proto(src: Proto2<Log<IoError>, Log<ParseIntError>>) -> (r: Self) {
        match src {
            Proto2::_0(v) => ReadU32Error::IO(v),
            Proto2::_1(v) => ReadU32Error::Parse(v),
        }
    }

    fn into_proto(self) -> (r: Proto2<Log<IoError>, Log<ParseIntError>>) {
        match self {
            ReadU32Error::IO(v) => Proto2::_0(v),
            ReadU32Error::Parse(v) => Proto2::_1(v),
        }
    }
}

impl FromVariant<Log<IoError>, V0> for AMulBEqCError {
    open spec fn spec_from_variant(variant: Log<IoError>) -> Self {
        AMulBEqCError::IO(variant)
    }

    fn from_variant(variant: Log<IoError>) -> (r: Self) {
        AMulBEqCError::IO(variant)
    }
}

impl FromVariant<Log<ParseIntError>, V1> for AMulBEqCError {
    open spec fn spec_from_variant(variant: Log<ParseIntError>) -> Self {
        AMulBEqCError::Parse(variant)
    }

    fn from_variant(variant: Log<ParseIntError>) -> (r: Self) {
        AMulBEqCError::Parse(variant)
    }
}

impl FromVariant<Log<MulOverflow>, V2> for AMulBEqCError {
    open spec fn spec_from_variant(variant: Log<MulOverflow>) -> Self {
        AMulBEqCError::Overflow(variant)
    }

    fn from_variant(variant: Log<MulOverflow>) -> (r: Self) {
        AMulBEqCError::Overflow(variant)
    }
}

impl Proto for AMulBEqCError {
    type Type = Proto3<Log<IoError>, Log<ParseIntError>, Log<MulOverflow>>;

    open spec fn spec_from_proto(
        src: Proto3<Log<IoError>, Log<ParseIntError>, Log<MulOverflow>>,
    ) -> Self {
        match src {
            Proto3::_0(v) => AMulBEqCError::IO(v),
            Proto3::_1(v) => AMulBEqCError::Parse(v),
            Proto3::_2(v) => AMulBEqCError::Overflow(v),
        }
    }

    open spec fn spec_into_proto(self) -> Proto3<
        Log<IoError>,
        Log<ParseIntError>,
        Log<MulOverflow>,
    > {
        match self {
            AMulBEqCError::IO(v) => Proto3::_0(v),
            AMulBEqCError::Parse(v) => Proto3::_1(v),
            AMulBEqCError::Overflow(v) => Proto3::_2(v),
        }
    }

    fn from_proto(src: Proto3<Log<IoError>, Log<ParseIntError>, Log<MulOverflow>>) -> (r: Self) {
        match src {
            Proto3::_0(v) => AMulBEqCError::IO(v),
            Proto3::_1(v) => AMulBEqCError::Parse(v),
            Proto3::_2(v) => AMulBEqCError::Overflow(v),
        }
    }

    fn into_proto(self) -> (r: Proto3<Log<IoError>, Log<ParseIntError>, Log<MulOverflow>>) {
        match self {
            AMulBEqCError::IO(v) => Proto3::_0(v),
            AMulBEqCError::Parse(v) => Proto3::_1(v),
            AMulBEqCError::Overflow(v) => Proto3::_2(v),
        }
    }
}

impl Logger<Vec<Frame>> for ReadU32Error {
    open spec fn logged(self, item: Frame, r: Self) -> bool {
        match (self, r) {
            (ReadU32Error::IO(v), ReadU32Error::IO(w)) => v.logged(item, w),
            (ReadU32Error::Parse(v), ReadU32Error::Parse(w)) => v.logged(item, w),
            _ => false,
        }
    }

    fn log(self, item: Frame) -> (r: Self) {
        match self {
            ReadU32Error::IO(v) => ReadU32Error::IO(v.log(item)),
            ReadU32Error::Parse(v) => ReadU32Error::Parse(v.log(item)),
        }
    }
}

/// Reads a number out of a fetched text; a failure carries one frame
/// recorded at `site`.
pub fn read_u32(text: Result<String, IoError>, site: &Frame) -> (r: Result<u32, ReadU32Error>)
    ensures
        (match (spec_read(text), r) {
            (Ok(n), Ok(m)) => m == n,
            (Err(Enum2::_0(io)), Err(ReadU32Error::IO(l))) => l.error == io && l.agent@ == seq![
                site_frame(*site),
            ],
            (Err(Enum2::_1(pe)), Err(ReadU32Error::Parse(l))) => l.error == pe && l.agent@ == seq![
                site_frame(*site),
            ],
            _ => false,
        }),
{
    match read_number(text) {
        Ok(n) => Ok(n),
        Err(e) => match e {
            Enum2::_0(io) => {
                let l: Log<IoError> = io.to_log(frame_at(site));
                l.error()
            },
            Enum2::_1(pe) => {
                let l: Log<ParseIntError> = pe.to_log(frame_at(site));
                l.error()
            },
        },
    }
}


/// The exchange of the logged read error into the logged check error
/// keeps each variant's payload under the matching name.
proof fn lemma_widen_logged()
    ensures
        forall|e: ReadU32Error|
            #[trigger] <ReadU32Error as ExchangeInto<
                AMulBEqCError,
                crate::enumx::EnumToEnum<(V0, V1)>,
            >>::spec_exchange_into(e) == (match e {
                ReadU32Error::IO(l) => AMulBEqCError::IO(l),
                ReadU32Error::Parse(l) => AMulBEqCError::Parse(l),
            }),
{
    assert forall|e: ReadU32Error|
        #[trigger] <ReadU32Error as ExchangeInto<
            AMulBEqCError,
            crate::enumx::EnumToEnum<(V0, V1)>,
        >>::spec_exchange_into(e) == (match e {
        ReadU32Error::IO(l) => AMulBEqCError::IO(l),
        ReadU32Error::Parse(l) => AMulBEqCError::Parse(l),
    }) by {
        match e {
            ReadU32Error::IO(l) => {
                assert(e.spec_into_proto() == Proto2::<Log<IoError>, Log<ParseIntError>>::_0(l));
            },
            ReadU32Error::Parse(l) => {
                assert(e.spec_into_proto() == Proto2::<Log<IoError>, Log<ParseIntError>>::_1(l));
            },
        }
    }
}

/// Checks that the first two numbers multiply to the third; a failure
/// carries the frames it collected, as the clauses say case by case.
pub fn a_mul_b_eq_c(
    a_text: Result<String, IoError>,
    b_text: Result<String, IoError>,
    c_text: Result<String, IoError>,
    read_site: &Frame,
    log_site: &Frame,
    overflow_site: &Frame,
) -> (r: Result<bool, AMulBEqCError>)
    ensures
        (match (spec_check(a_text, b_text, c_text), r) {
            (Outcome::Done(v), Ok(w)) => w == v,
            (Outcome::BadFirst(Enum2::_0(io)), Err(AMulBEqCError::IO(l))) => l.error == io
                && l.agent@ == seq![site_frame(*read_site), site_frame(*log_site)],
            (Outcome::BadFirst(Enum2::_1(pe)), Err(AMulBEqCError::Parse(l))) => l.error == pe
                && l.agent@ == seq![site_frame(*read_site), site_frame(*log_site)],
            (Outcome::BadSecond(Enum2::_0(io)), Err(AMulBEqCError::IO(l))) => l.error == io
                && l.agent@ == seq![site_frame(*read_site)],
            (Outcome::BadSecond(Enum2::_1(pe)), Err(AMulBEqCError::Parse(l))) => l.error == pe
                && l.agent@ == seq![site_frame(*read_site)],
            (Outcome::BadThird(pe), Err(AMulBEqCError::Parse(l))) => l.error == pe && l.agent@
                == seq![site_frame(*read_site)],
            (Outcome::Overflow(a, b), Err(AMulBEqCError::Overflow(l))) => l.error == MulOverflow(
                a,
                b,
            ) && l.agent@ == seq![site_frame(*overflow_site)],
            _ => false,
        }),
{
    proof {
        lemma_widen_logged();
    }
    let a = match read_u32(a_text, read_site) {
        Ok(v) => v,
        Err(err) => {
            proof {
                lemma_push_one(site_frame(*read_site), site_frame(*log_site));
            }
            let logged = err.log(frame_at(log_site));
            return logged.error();
        },
    };

    let b = match read_u32(b_text, read_site) {
        Ok(v) => v,
        Err(err) => {
            if a == 0 {
                0
            } else {
                return err.error();
            }
        },
    };

    let c = match read_u32(c_text, read_site) {
        Ok(v) => v,
        Err(err) => match err {
            ReadU32Error::IO(_) => 0,
            ReadU32Error::Parse(e) => {
                return e.error();
            },
        },
    };

    let step: Result<u32, MulOverflow> = match a.checked_mul(b) {
        Some(p) => Ok(p),
        None => Err(MulOverflow(a, b)),
    };
    let step: Result<u32, Log<MulOverflow>> = step.map_err_to_log(frame_at(overflow_site));
    let step: Result<u32, AMulBEqCError> = step.map_error();
    match step {
        Ok(p) => Ok(p == c),
        Err(e) => Err(e),
    }
}

} // verus!
