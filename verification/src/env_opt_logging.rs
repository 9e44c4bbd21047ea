//! The worked example with logged error enums whose agent is `Env`:
//! frames are offered at every step, and all of them are dropped unless
//! tracing has been switched on from outside the program.

use vstd::prelude::*;

use crate::enumx::proto::{Proto2, Proto3};
use crate::enumx::{Enum2, ExchangeInto, FromVariant, Proto, V0, V1, V2};
use crate::log::{frame_at, lemma_push_one, site_frame, Env, Frame, Log, Logger};
use crate::scenario::{read_number, spec_check, spec_read, IoError, MulOverflow, Outcome};
use crate::text::ParseIntError;
use crate::Error;

verus! {

/// The log type of this style: frames gated by the tracing switch.
pub type EnvLog<E> = Log<E, Env<Vec<Frame>>>;

/// What reading a number can throw here.
#[derive(Debug, PartialEq, Eq)]
pub enum ReadU32Error {
    IO(EnvLog<IoError>),
    Parse(EnvLog<ParseIntError>),
}

/// What the whole check can throw here.
#[derive(Debug, PartialEq, Eq)]
pub enum AMulBEqCError {
    IO(EnvLog<IoError>),
    Parse(EnvLog<ParseIntError>),
    Overflow(EnvLog<MulOverflow>),
}

impl FromVariant<EnvLog<IoError>, V0> for ReadU32Error {
    open spec fn spec_from_variant(variant: EnvLog<IoError>) -> Self {
        ReadU32Error::IO(variant)
    }

    fn from_variant(variant: EnvLog<IoError>) -> (r: Self) {
        ReadU32Error::IO(variant)
    }
}

impl FromVariant<EnvLog<ParseIntError>, V1> for ReadU32Error {
    open spec fn spec_from_variant(variant: EnvLog<ParseIntError>) -> Self {
        ReadU32Error::Parse(variant)
    }

    fn from_variant(variant: EnvLog<ParseIntError>) -> (r: Self) {
        ReadU32Error::Parse(variant)
    }
}

impl Proto for ReadU32Error {
    type Type = Proto2<EnvLog<IoError>, EnvLog<ParseIntError>>;

    open spec fn spec_from_proto(src: Proto2<EnvLog<IoError>, EnvLog<ParseIntError>>) -> Self {
        match src {
            Proto2::_0(v) => ReadU32Error::IO(v),
            Proto2::_1(v) => ReadU32Error::Parse(v),
        }
    }

    open spec fn spec_into_proto(self) -> Proto2<EnvLog<IoError>, EnvLog<ParseIntError>> {
        match self {
            ReadU32Error::IO(v) => Proto2::_0(v),
            ReadU32Error::Parse(v) => Proto2::_1(v),
        }
    }

    fn from_proto(src: Proto2<EnvLog<IoError>, EnvLog<ParseIntError>>) -> (r: Self) {
        match src {
            Proto2::_0(v) => ReadU32Error::IO(v),
            Proto2::_1(v) => ReadU32Error::Parse(v),
        }
    }

    fn into_proto(self) -> (r: Proto2<EnvLog<IoError>, EnvLog<ParseIntError>>) {
        match self {
            ReadU32Error::IO(v) => Proto2::_0(v),
            ReadU32Error::Parse(v) => Proto2::_1(v),
        }
    }
}

impl FromVariant<EnvLog<IoError>, V0> for AMulBEqCError {
    open spec fn spec_from_variant(variant: EnvLog<IoError>) -> Self {
        AMulBEqCError::IO(variant)
    }

    fn from_variant(variant: EnvLog<IoError>) -> (r: Self) {
        AMulBEqCError::IO(variant)
    }
}

impl FromVariant<EnvLog<ParseIntError>, V1> for AMulBEqCError {
    open spec fn spec_from_variant(variant: EnvLog<ParseIntError>) -> Self {
        AMulBEqCError::Parse(variant)
    }

    fn from_variant(variant: EnvLog<ParseIntError>) -> (r: Self) {
        AMulBEqCError::Parse(variant)
    }
}

impl FromVariant<EnvLog<MulOverflow>, V2> for AMulBEqCError {
    open spec fn spec_from_variant(variant: EnvLog<MulOverflow>) -> Self {
        AMulBEqCError::Overflow(variant)
    }

    fn from_variant(variant: EnvLog<MulOverflow>) -> (r: Self) {
        AMulBEqCError::Overflow(variant)
    }
}

impl Proto for AMulBEqCError {
    type Type = Proto3<EnvLog<IoError>, EnvLog<ParseIntError>, EnvLog<MulOverflow>>;

    open spec fn spec_from_proto(
        src: Proto3<EnvLog<IoError>, EnvLog<ParseIntError>, EnvLog<MulOverflow>>,
    ) -> Self {
        match src {
            Proto3::_0(v) => AMulBEqCError::IO(v),
            Proto3::_1(v) => AMulBEqCError::Parse(v),
            Proto3::_2(v) => AMulBEqCError::Overflow(v),
        }
    }

    open spec fn spec_into_proto(self) -> Proto3<
        EnvLog<IoError>,
        EnvLog<ParseIntError>,
        EnvLog<MulOverflow>,
    > {
        match self {
            AMulBEqCError::IO(v) => Proto3::_0(v),
            AMulBEqCError::Parse(v) => Proto3::_1(v),
            AMulBEqCError::Overflow(v) => Proto3::_2(v),
        }
    }

    fn from_proto(
        src: Proto3<EnvLog<IoError>, EnvLog<ParseIntError>, EnvLog<MulOverflow>>,
    ) -> (r: Self) {
        match src {
            Proto3::_0(v) => AMulBEqCError::IO(v),
            Proto3::_1(v) => AMulBEqCError::Parse(v),
            Proto3::_2(v) => AMulBEqCError::Overflow(v),
        }
    }

    fn into_proto(self) -> (r: Proto3<
        EnvLog<IoError>,
        EnvLog<ParseIntError>,
        EnvLog<MulOverflow>,
    >) {
        match self {
            AMulBEqCError::IO(v) => Proto3::_0(v),
            AMulBEqCError::Parse(v) => Proto3::_1(v),
            AMulBEqCError::Overflow(v) => Proto3::_2(v),
        }
    }
}

impl Logger<Env<Vec<Frame>>> for ReadU32Error {
    open spec fn logged(self, item: Frame, r: Self) -> bool {
        match (self, r) {
            (ReadU32Error::IO(v), ReadU32Error::IO(w)) => v.logged(item, w),
            (ReadU32Error::Parse(v), ReadU32Error::Parse(w)) => v.logged(item, w),
            _ => false,
        }
    }

    fn log(self, item: Frame) -> (r: Self) {
        match self {
            ReadU32Error::IO(v) => ReadU32Error::IO(v.log(item)),
            ReadU32Error::Parse(v) => ReadU32Error::Parse(v.log(item)),
        }
    }
}

/// Whether a gated log holds `e` under the switch `tracing` and has
/// collected exactly `frames` while the switch was on — and nothing
/// while it was off.
pub open spec fn gated<E>(e: E, tracing: bool, frames: Seq<Frame>, l: EnvLog<E>) -> bool {
    l.error == e && l.agent.enabled == tracing && (if tracing {
        l.agent.agent@ == frames
    } else {
        l.agent.agent@.len() == 0
    })
}

/// Reads a number out of a fetched text; a failure carries a gated log
/// offered one frame at `site`, kept exactly when the switch the
/// caller read is on.
pub fn read_u32(text: Result<String, IoError>, site: &Frame, tracing: bool) -> (r: Result<
    u32,
    ReadU32Error,
>)
    ensures
        (match (spec_read(text), r) {
            (Ok(n), Ok(m)) => m == n,
            (Err(Enum2::_0(io)), Err(ReadU32Error::IO(l))) => gated(
                io,
                tracing,
                seq![site_frame(*site)],
                l,
            ),
            (Err(Enum2::_1(pe)), Err(ReadU32Error::Parse(l))) => gated(
                pe,
                tracing,
                seq![site_frame(*site)],
                l,
            ),
            _ => false,
        }),
{
    match read_number(text) {
        Ok(n) => Ok(n),
        Err(e) => match e {
            Enum2::_0(io) => {
                let l: EnvLog<IoError> = Log {
                    error: io,
                    agent: Env::create_switched(tracing, frame_at(site)),
                };
                l.error()
            },
            Enum2::_1(pe) => {
                let l: EnvLog<ParseIntError> = Log {
                    error: pe,
                    agent: Env::create_switched(tracing, frame_at(site)),
                };
                l.error()
            },
        },
    }
}

/// The exchange of the gated read error into the gated check error
/// keeps each variant's payload under the matching name.
proof fn lemma_widen_env()
    ensures
        forall|e: ReadU32Error|
            #[trigger] <ReadU32Error as ExchangeInto<
                AMulBEqCError,
                crate::enumx::EnumToEnum<(V0, V1)>,
            >>::spec_exchange_into(e) == (match e {
                ReadU32Error::IO(l) => AMulBEqCError::IO(l),
                ReadU32Error::Parse(l) => AMulBEqCError::Parse(l),
            }),
{
    assert forall|e: ReadU32Error|
        #[trigger] <ReadU32Error as ExchangeInto<
            AMulBEqCError,
            crate::enumx::EnumToEnum<(V0, V1)>,
        >>::spec_exchange_into(e) == (match e {
        ReadU32Error::IO(l) => AMulBEqCError::IO(l),
        ReadU32Error::Parse(l) => AMulBEqCError::Parse(l),
    }) by {
        match e {
            ReadU32Error::IO(l) => {
                assert(e.spec_into_proto() == Proto2::<
                    EnvLog<IoError>,
                    EnvLog<ParseIntError>,
                >::_0(l));
            },
            ReadU32Error::Parse(l) => {
                assert(e.spec_into_proto() == Proto2::<
                    EnvLog<IoError>,
                    EnvLog<ParseIntError>,
                >::_1(l));
            },
        }
    }
}

/// Checks that the first two numbers multiply to the third; every
/// failure carries a gated log whose frames are kept exactly when the
/// switch the caller read is on.
pub fn a_mul_b_eq_c(
    a_text: Result<String, IoError>,
    b_text: Result<String, IoError>,
    c_text: Result<String, IoError>,
    read_site: &Frame,
    log_site: &Frame,
    overflow_site: &Frame,
    tracing: bool,
) -> (r: Result<bool, AMulBEqCError>)
    ensures
        (match (spec_check(a_text, b_text, c_text), r) {
            (Outcome::Done(v), Ok(w)) => w == v,
            (Outcome::BadFirst(Enum2::_0(io)), Err(AMulBEqCError::IO(l))) => gated(
                io,
                tracing,
                seq![site_frame(*read_site), site_frame(*log_site)],
                l,
            ),
            (Outcome::BadFirst(Enum2::_1(pe)), Err(AMulBEqCError::Parse(l))) => gated(
                pe,
                tracing,
                seq![site_frame(*read_site), site_frame(*log_site)],
                l,
            ),
            (Outcome::BadSecond(Enum2::_0(io)), Err(AMulBEqCError::IO(l))) => gated(
                io,
                tracing,
                seq![site_frame(*read_site), site_frame(*log_site)],
                l,
            ),
            (Outcome::BadSecond(Enum2::_1(pe)), Err(AMulBEqCError::Parse(l))) => gated(
                pe,
                tracing,
                seq![site_frame(*read_site), site_frame(*log_site)],
                l,
            ),
            (Outcome::BadThird(pe), Err(AMulBEqCError::Parse(l))) => gated(
                pe,
                tracing,
                seq![site_frame(*read_site), site_frame(*log_site)],
                l,
            ),
            (Outcome::Overflow(a, b), Err(AMulBEqCError::Overflow(l))) => gated(
                MulOverflow(a, b),
                tracing,
                seq![site_frame(*overflow_site)],
                l,
            ),
            _ => false,
        }),
{
    proof {
        lemma_widen_env();
        lemma_push_one(site_frame(*read_site), site_frame(*log_site));
    }
    let a = match read_u32(a_text, read_site, tracing) {
        Ok(v) => v,
        Err(err) => {
            let logged = err.log(frame_at(log_site));
            return logged.error();
        },
    };

    let b = match read_u32(b_text, read_site, tracing) {
        Ok(v) => v,
        Err(err) => {
            if a == 0 {
                0
            } else {
                let logged = err.log(frame_at(log_site));
                return logged.error();
            }
        },
    };

    let c = match read_u32(c_text, read_site, tracing) {
        Ok(v) => v,
        Err(err) => match err {
            ReadU32Error::IO(_) => 0,
            ReadU32Error::Parse(e) => {
                let logged = e.log(frame_at(log_site));
                return logged.error();
            },
        },
    };

    match a.checked_mul(b) {
        Some(p) => Ok(p == c),
        None => {
            let l: EnvLog<MulOverflow> = Log {
                error: MulOverflow(a, b),
                agent: Env::create_switched(tracing, frame_at(overflow_site)),
            };
            l.error()
        },
    }
}

} // verus!
