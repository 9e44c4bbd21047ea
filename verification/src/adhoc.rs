//! The worked example written with ad-hoc sum types: the error sets are
//! structural `Enum2` / `Enum3` and the errors travel as tagged values.

use vstd::prelude::*;
use vstd::string::StringExecFns;

use crate::enumx::{Enum2, Enum3, ExchangeInto};
use crate::scenario::{spec_check, spec_read, spec_widen, IoError, MulOverflow, Outcome};
use crate::tagged::{noted, plain, Cex, Log, MayRethrow, MayThrow};
use crate::text::{spec_trim, spec_u32_dec, ParseIntError};

verus! {

/// The note a parse failure carries: the trimmed text it choked on.
pub open spec fn parse_fail_msg(t: Seq<char>) -> Seq<char> {
    "fail in parsing "@ + t + " to u32"@
}

/// The note an overflow carries: the two factors.
pub open spec fn overflow_msg(a: u32, b: u32) -> Seq<char> {
    "u32 overflow: "@ + spec_u32_dec(a as int) + " * "@ + spec_u32_dec(b as int)
}

/// The records a failed read leaves behind: none for a fetch failure,
/// one noted record at the parse site for a parse failure.
pub open spec fn read_logs(text: Result<String, IoError>, site: Log, logs: Seq<Log>) -> bool {
    match text {
        Err(_) => logs.len() == 0,
        Ok(s) => logs.len() == 1 && noted(site, parse_fail_msg(spec_trim(s@)), logs[0]),
    }
}

/// Reads a number out of a fetched text; a parse failure is tagged with
/// one noted record at `parse_site`.
pub fn read_u32(text: Result<String, IoError>, parse_site: &Log) -> (r: Result<
    u32,
    Cex<Enum2<IoError, ParseIntError>>,
>)
    ensures
        (match (spec_read(text), r) {
            (Ok(n), Ok(m)) => m == n,
            (Err(e), Err(c)) => c.error == e && read_logs(text, *parse_site, c.logs@),
            _ => false,
        }),
{
    let ghost spec_r = spec_read(text);
    match text {
        Err(e) => {
            let r: Result<u32, Cex<Enum2<IoError, ParseIntError>>> = Err::<u32, IoError>(
                e,
            ).may_throw();
            proof {
                assert(spec_r == Err::<u32, Enum2<IoError, ParseIntError>>(Enum2::_0(e)));
            }
            r
        },
        Ok(s) => {
            let t = crate::text::trim(s.as_str());
            match crate::text::parse_u32(t) {
                Ok(n) => Ok(n),
                Err(pe) => {
                    let mut msg: String = <String as StringExecFns>::from_str("fail in parsing ");
                    msg.append(t);
                    msg.append(" to u32");
                    let item = Log::new(
                        parse_site.module,
                        parse_site.file,
                        parse_site.line,
                        parse_site.column,
                        Some(msg),
                    );
                    let r: Result<u32, Cex<Enum2<IoError, ParseIntError>>> = Err::<
                        u32,
                        ParseIntError,
                    >(pe).may_throw_log(item);
                    proof {
                        assert(spec_r == Err::<u32, Enum2<IoError, ParseIntError>>(
                            Enum2::_1(pe),
                        ));
                    }
                    r
                },
            }
        },
    }
}

/// What `a_mul_b_eq_c` leaves behind, case by case of `spec_check`.
pub open spec fn check_post(
    a_text: Result<String, IoError>,
    b_text: Result<String, IoError>,
    c_text: Result<String, IoError>,
    parse_site: Log,
    rethrow_site: Log,
    overflow_site: Log,
    r: Result<bool, Cex<Enum3<IoError, ParseIntError, MulOverflow>>>,
) -> bool {
    match (spec_check(a_text, b_text, c_text), r) {
        (Outcome::Done(v), Ok(w)) => w == v,
        (Outcome::BadFirst(e), Err(c)) => c.error == spec_widen(e) && read_logs(
            a_text,
            parse_site,
            c.logs@,
        ),
        (Outcome::BadSecond(e), Err(c)) => c.error == spec_widen(e) && match b_text {
            Err(_) => c.logs@.len() == 1 && plain(rethrow_site, c.logs@[0]),
            Ok(s) => c.logs@.len() == 2 && noted(
                parse_site,
                parse_fail_msg(spec_trim(s@)),
                c.logs@[0],
            ) && plain(rethrow_site, c.logs@[1]),
        },
        (Outcome::BadThird(pe), Err(c)) => c.error == Enum3::<IoError, ParseIntError, MulOverflow>::_1(pe) && c.logs@.len() == 0,
        (Outcome::Overflow(a, b), Err(c)) => c.error == Enum3::<IoError, ParseIntError, MulOverflow>::_2(MulOverflow(a, b)) && c.logs@.len()
            == 1 && noted(overflow_site, overflow_msg(a, b), c.logs@[0]),
        _ => false,
    }
}

/// Checks that the first two numbers multiply to the third, tagging
/// errors on the way out as `check_post` says.
pub fn a_mul_b_eq_c(
    a_text: Result<String, IoError>,
    b_text: Result<String, IoError>,
    c_text: Result<String, IoError>,
    parse_site: &Log,
    rethrow_site: &Log,
    overflow_site: &Log,
) -> (r: Result<bool, Cex<Enum3<IoError, ParseIntError, MulOverflow>>>)
    ensures
        check_post(a_text, b_text, c_text, *parse_site, *rethrow_site, *overflow_site, r),
{
    proof {
        lemma_widen_unfolds();
    }
    let ra = read_u32(a_text, parse_site);
    let ra: Result<u32, Cex<Enum3<IoError, ParseIntError, MulOverflow>>> = ra.may_rethrow();
    let a = match ra {
        Ok(v) => v,
        Err(c) => {
            return Err(c);
        },
    };

    let b = match read_u32(b_text, parse_site) {
        Ok(v) => v,
        Err(c) => {
            if a == 0 {
                0
            } else {
                let item = Log::new(
                    rethrow_site.module,
                    rethrow_site.file,
                    rethrow_site.line,
                    rethrow_site.column,
                    None,
                );
                return Err(c.rethrow_log(item));
            }
        },
    };

    let c = match read_u32(c_text, parse_site) {
        Ok(v) => v,
        Err(cex) => match cex.error {
            Enum2::_0(_) => 0,
            Enum2::_1(pe) => {
                return Err(crate::tagged::thrown(pe));
            },
        },
    };

    match a.checked_mul(b) {
        Some(p) => Ok(p == c),
        None => {
            let mut msg: String = <String as StringExecFns>::from_str("u32 overflow: ");
            crate::text::append_u32_dec(&mut msg, a);
            msg.append(" * ");
            crate::text::append_u32_dec(&mut msg, b);
            let item = Log::new(
                overflow_site.module,
                overflow_site.file,
                overflow_site.line,
                overflow_site.column,
                Some(msg),
            );
            let mut logs: Vec<Log> = Vec::new();
            logs.push(item);
            proof {
                assert(overflow_msg(a, b) == msg@);
            }
            Err(Cex { error: Enum3::_2(MulOverflow(a, b)), logs })
        },
    }
}

/// The exchange of a two-variant read error into the three-variant
/// check error lands each variant where `spec_widen` says.
proof fn lemma_widen_unfolds()
    ensures
        forall|e: Enum2<IoError, ParseIntError>|
            #[trigger] <Enum2<IoError, ParseIntError> as ExchangeInto<
                Enum3<IoError, ParseIntError, MulOverflow>,
                crate::enumx::EnumToEnum<(crate::enumx::V0, crate::enumx::V1)>,
            >>::spec_exchange_into(e) == spec_widen(e),
{
    assert forall|e: Enum2<IoError, ParseIntError>|
        #[trigger] <Enum2<IoError, ParseIntError> as ExchangeInto<
            Enum3<IoError, ParseIntError, MulOverflow>,
            crate::enumx::EnumToEnum<(crate::enumx::V0, crate::enumx::V1)>,
        >>::spec_exchange_into(e) == spec_widen(e) by {
        match e {
            Enum2::_0(v) => {
                assert(crate::enumx::Proto::spec_into_proto(e)
                    == crate::enumx::proto::Proto2::<IoError, ParseIntError>::_0(v));
            },
            Enum2::_1(v) => {
                assert(crate::enumx::Proto::spec_into_proto(e)
                    == crate::enumx::proto::Proto2::<IoError, ParseIntError>::_1(v));
            },
        }
    }
}

} // verus!
