//! The worked example in the declaration-sugar style: each function
//! declares its throw set as a named enum of its own, and the errors
//! travel as tagged values collecting records.

use vstd::prelude::*;
use vstd::string::StringExecFns;

use crate::adhoc::{overflow_msg, parse_fail_msg, read_logs};
use crate::enumx::proto::{Proto2, Proto3};
use crate::enumx::{Enum2, ExchangeInto, FromVariant, Proto, V0, V1, V2};
use crate::scenario::{spec_check, spec_read, IoError, MulOverflow, Outcome};
use crate::tagged::{noted, plain, Cex, Log, MayRethrow, MayThrow};
use crate::text::{spec_trim, ParseIntError};

verus! {

/// The throw set that reading a number declares.
#[derive(Debug, PartialEq, Eq)]
pub enum ReadErr {
    IO(IoError),
    Parse(ParseIntError),
}

/// The throw set that the whole check declares.
#[derive(Debug, PartialEq, Eq)]
pub enum CheckErr {
    IO(IoError),
    Parse(ParseIntError),
    Calc(MulOverflow),
}

impl FromVariant<IoError, V0> for ReadErr {
    open spec fn spec_from_variant(variant: IoError) -> Self {
        ReadErr::IO(variant)
    }

    fn from_variant(variant: IoError) -> (r: Self) {
        ReadErr::IO(variant)
    }
}

impl FromVariant<ParseIntError, V1> for ReadErr {
    open spec fn spec_from_variant(variant: ParseIntError) -> Self {
        ReadErr::Parse(variant)
    }

    fn from_variant(variant: ParseIntError) -> (r: Self) {
        ReadErr::Parse(variant)
    }
}

impl Proto for ReadErr {
    type Type = Proto2<IoError, ParseIntError>;

    open spec fn spec_from_proto(src: Proto2<IoError, ParseIntError>) -> Self {
        match src {
            Proto2::_0(v) => ReadErr::IO(v),
            Proto2::_1(v) => ReadErr::Parse(v),
        }
    }

    open spec fn spec_into_proto(self) -> Proto2<IoError, ParseIntError> {
        match self {
            ReadErr::IO(v) => Proto2::_0(v),
            ReadErr::Parse(v) => Proto2::_1(v),
        }
    }

    fn from_proto(src: Proto2<IoError, ParseIntError>) -> (r: Self) {
        match src {
            Proto2::_0(v) => ReadErr::IO(v),
            Proto2::_1(v) => ReadErr::Parse(v),
        }
    }

    fn into_proto(self) -> (r: Proto2<IoError, ParseIntError>) {
        match self {
            ReadErr::IO(v) => Proto2::_0(v),
            ReadErr::Parse(v) => Proto2::_1(v),
        }
    }
}

impl FromVariant<IoError, V0> for CheckErr {
    open spec fn spec_from_variant(variant: IoError) -> Self {
        CheckErr::IO(variant)
    }

    fn from_variant(variant: IoError) -> (r: Self) {
        CheckErr::IO(variant)
    }
}

impl FromVariant<ParseIntError, V1> for CheckErr {
    open spec fn spec_from_variant(variant: ParseIntError) -> Self {
        CheckErr::Parse(variant)
    }

    fn from_variant(variant: ParseIntError) -> (r: Self) {
        CheckErr::Parse(variant)
    }
}

impl FromVariant<MulOverflow, V2> for CheckErr {
    open spec fn spec_from_variant(variant: MulOverflow) -> Self {
        CheckErr::Calc(variant)
    }

    fn from_variant(variant: MulOverflow) -> (r: Self) {
        CheckErr::Calc(variant)
    }
}

impl Proto for CheckErr {
    type Type = Proto3<IoError, ParseIntError, MulOverflow>;

    open spec fn spec_from_proto(src: Proto3<IoError, ParseIntError, MulOverflow>) -> Self {
        match src {
            Proto3::_0(v) => CheckErr::IO(v),
            Proto3::_1(v) => CheckErr::Parse(v),
            Proto3::_2(v) => CheckErr::Calc(v),
        }
    }

    open spec fn spec_into_proto(self) -> Proto3<IoError, ParseIntError, MulOverflow> {
        match self {
            CheckErr::IO(v) => Proto3::_0(v),
            CheckErr::Parse(v) => Proto3::_1(v),
            CheckErr::Calc(v) => Proto3::_2(v),
        }
    }

    fn from_proto(src: Proto3<IoError, ParseIntError, MulOverflow>) -> (r: Self) {
        match src {
            Proto3::_0(v) => CheckErr::IO(v),
            Proto3::_1(v) => CheckErr::Parse(v),
            Proto3::_2(v) => CheckErr::Calc(v),
        }
    }

    fn into_proto(self) -> (r: Proto3<IoError, ParseIntError, MulOverflow>) {
        match self {
            CheckErr::IO(v) => Proto3::_0(v),
            CheckErr::Parse(v) => Proto3::_1(v),
            CheckErr::Calc(v) => Proto3::_2(v),
        }
    }
}

/// The read error as the declared read throw set names it.
pub open spec fn to_read_err(e: Enum2<IoError, ParseIntError>) -> ReadErr {
    match e {
        Enum2::_0(io) => ReadErr::IO(io),
        Enum2::_1(pe) => ReadErr::Parse(pe),
    }
}

/// The read error widened into the declared check throw set.
pub open spec fn to_check_err(e: Enum2<IoError, ParseIntError>) -> CheckErr {
    match e {
        Enum2::_0(io) => CheckErr::IO(io),
        Enum2::_1(pe) => CheckErr::Parse(pe),
    }
}

/// Reads a number out of a fetched text; a parse failure is tagged with
/// one noted record at `parse_site`.
pub fn read_u32(text: Result<String, IoError>, parse_site: &Log) -> (r: Result<u32, Cex<ReadErr>>)
    ensures
        (match (spec_read(text), r) {
            (Ok(n), Ok(m)) => m == n,
            (Err(e), Err(c)) => c.error == to_read_err(e) && read_logs(text, *parse_site, c.logs@),
            _ => false,
        }),
{
    match text {
        Err(e) => {
            let r: Result<u32, Cex<ReadErr>> = Err::<u32, IoError>(e).may_throw();
            r
        },
        Ok(s) => {
            let t = crate::text::trim(s.as_str());
            match crate::text::parse_u32(t) {
                Ok(n) => Ok(n),
                Err(pe) => {
                    let mut msg: String = <String as StringExecFns>::from_str("fail in parsing ");
                    msg.append(t);
                    msg.append(" to u32");
                    let item = Log::new(
                        parse_site.module,
                        parse_site.file,
                        parse_site.line,
                        parse_site.column,
                        Some(msg),
                    );
                    let r: Result<u32, Cex<ReadErr>> = Err::<u32, ParseIntError>(
                        pe,
                    ).may_throw_log(item);
                    r
                },
            }
        },
    }
}

/// The exchange of the declared read throw set into the declared check
/// throw set keeps each variant's payload under the matching name.
proof fn lemma_widen_sugar()
    ensures
        forall|e: ReadErr|
            #[trigger] <ReadErr as ExchangeInto<
                CheckErr,
                crate::enumx::EnumToEnum<(V0, V1)>,
            >>::spec_exchange_into(e) == to_check_err(
                match e {
                    ReadErr::IO(io) => Enum2::_0(io),
                    ReadErr::Parse(pe) => Enum2::_1(pe),
                },
            ),
{
    assert forall|e: ReadErr|
        #[trigger] <ReadErr as ExchangeInto<
            CheckErr,
            crate::enumx::EnumToEnum<(V0, V1)>,
        >>::spec_exchange_into(e) == to_check_err(
        match e {
            ReadErr::IO(io) => Enum2::_0(io),
            ReadErr::Parse(pe) => Enum2::_1(pe),
        },
    ) by {
        match e {
            ReadErr::IO(v) => {
                assert(e.spec_into_proto() == Proto2::<IoError, ParseIntError>::_0(v));
            },
            ReadErr::Parse(v) => {
                assert(e.spec_into_proto() == Proto2::<IoError, ParseIntError>::_1(v));
            },
        }
    }
}

/// What `a_mul_b_eq_c` leaves behind, case by case of `spec_check`.
pub open spec fn check_post(
    a_text: Result<String, IoError>,
    b_text: Result<String, IoError>,
    c_text: Result<String, IoError>,
    parse_site: Log,
    rethrow_site: Log,
    overflow_site: Log,
    r: Result<bool, Cex<CheckErr>>,
) -> bool {
    match (spec_check(a_text, b_text, c_text), r) {
        (Outcome::Done(v), Ok(w)) => w == v,
        (Outcome::BadFirst(e), Err(c)) => c.error == to_check_err(e) && read_logs(
            a_text,
            parse_site,
            c.logs@,
        ),
        (Outcome::BadSecond(e), Err(c)) => c.error == to_check_err(e) && match b_text {
            Err(_) => c.logs@.len() == 1 && plain(rethrow_site, c.logs@[0]),
            Ok(s) => c.logs@.len() == 2 && noted(
                parse_site,
                parse_fail_msg(spec_trim(s@)),
                c.logs@[0],
            ) && plain(rethrow_site, c.logs@[1]),
        },
        (Outcome::BadThird(pe), Err(c)) => c.error == CheckErr::Parse(pe) && c.logs@.len() == 0,
        (Outcome::Overflow(a, b), Err(c)) => c.error == CheckErr::Calc(MulOverflow(a, b))
            && c.logs@.len() == 1 && noted(overflow_site, overflow_msg(a, b), c.logs@[0]),
        _ => false,
    }
}

/// Checks that the first two numbers multiply to the third, tagging
/// errors on the way out as `check_post` says.
pub fn a_mul_b_eq_c(
    a_text: Result<String, IoError>,
    b_text: Result<String, IoError>,
    c_text: Result<String, IoError>,
    parse_site: &Log,
    rethrow_site: &Log,
    overflow_site: &Log,
) -> (r: Result<bool, Cex<CheckErr>>)
    ensures
        check_post(a_text, b_text, c_text, *parse_site, *rethrow_site, *overflow_site, r),
{
    proof {
        lemma_widen_sugar();
    }
    let ra = read_u32(a_text, parse_site);
    let ra: Result<u32, Cex<CheckErr>> = ra.may_rethrow();
    let a = match ra {
        Ok(v) => v,
        Err(c) => {
            return Err(c);
        },
    };

    let b = match read_u32(b_text, parse_site) {
        Ok(v) => v,
        Err(c) => {
            if a == 0 {
                0
            } else {
                let item = Log::new(
                    rethrow_site.module,
                    rethrow_site.file,
                    rethrow_site.line,
                    rethrow_site.column,
                    None,
                );
                return Err(c.rethrow_log(item));
            }
        },
    };

    let c = match read_u32(c_text, parse_site) {
        Ok(v) => v,
        Err(cex) => match cex.error {
            ReadErr::IO(_) => 0,
            ReadErr::Parse(pe) => {
                return Err(crate::tagged::thrown(pe));
            },
        },
    };

    match a.checked_mul(b) {
        Some(p) => Ok(p == c),
        None => {
            let mut msg: String = <String as StringExecFns>::from_str("u32 overflow: ");
            crate::text::append_u32_dec(&mut msg, a);
            msg.append(" * ");
            crate::text::append_u32_dec(&mut msg, b);
            let item = Log::new(
                overflow_site.module,
                overflow_site.file,
                overflow_site.line,
                overflow_site.column,
                Some(msg),
            );
            let mut logs: Vec<Log> = Vec::new();
            logs.push(item);
            Err(Cex { error: CheckErr::Calc(MulOverflow(a, b)), logs })
        },
    }
}

} // verus!
