//! The worked example written with named error enums and tagged
//! errors: the error sets are the user-declared enums of `cex_tag`,
//! and the errors travel as tagged values collecting records.

use vstd::prelude::*;
use vstd::string::StringExecFns;

use crate::adhoc::{overflow_msg, parse_fail_msg, read_logs};
use crate::cex_tag::{lemma_widen_named, to_check_err, to_read_err, AMulBEqCError, ReadU32Error};
use crate::scenario::{spec_check, spec_read, IoError, MulOverflow, Outcome};
use crate::tagged::{noted, plain, Cex, Log, MayRethrow, MayThrow};
use crate::text::{spec_trim, ParseIntError};

verus! {

/// Reads a number out of a fetched text; a parse failure is tagged with
/// one noted record at `parse_site`.
pub fn read_u32(text: Result<String, IoError>, parse_site: &Log) -> (r: Result<
    u32,
    Cex<ReadU32Error>,
>)
    ensures
        (match (spec_read(text), r) {
            (Ok(n), Ok(m)) => m == n,
            (Err(e), Err(c)) => c.error == to_read_err(e) && read_logs(
                text,
                *parse_site,
                c.logs@,
            ),
            _ => false,
        }),
{
    let ghost spec_r = spec_read(text);
    match text {
        Err(e) => {
            let r: Result<u32, Cex<ReadU32Error>> = Err::<u32, IoError>(e).may_throw();
            r
        },
        Ok(s) => {
            let t = crate::text::trim(s.as_str());
            match crate::text::parse_u32(t) {
                Ok(n) => Ok(n),
                Err(pe) => {
                    let mut msg: String = <String as StringExecFns>::from_str("fail in parsing ");
                    msg.append(t);
                    msg.append(" to u32");
                    let item = Log::new(
                        parse_site.module,
                        parse_site.file,
                        parse_site.line,
                        parse_site.column,
                        Some(msg),
                    );
                    let r: Result<u32, Cex<ReadU32Error>> = Err::<u32, ParseIntError>(
                        pe,
                    ).may_throw_log(item);
                    r
                },
            }
        },
    }
}

/// What `a_mul_b_eq_c` leaves behind, case by case of `spec_check`.
pub open spec fn check_post(
    a_text: Result<String, IoError>,
    b_text: Result<String, IoError>,
    c_text: Result<String, IoError>,
    parse_site: Log,
    rethrow_site: Log,
    overflow_site: Log,
    r: Result<bool, Cex<AMulBEqCError>>,
) -> bool {
    match (spec_check(a_text, b_text, c_text), r) {
        (Outcome::Done(v), Ok(w)) => w == v,
        (Outcome::BadFirst(e), Err(c)) => c.error == to_check_err(e) && read_logs(
            a_text,
            parse_site,
            c.logs@,
        ),
        (Outcome::BadSecond(e), Err(c)) => c.error == to_check_err(e) && match b_text {
            Err(_) => c.logs@.len() == 1 && plain(rethrow_site, c.logs@[0]),
            Ok(s) => c.logs@.len() == 2 && noted(
                parse_site,
                parse_fail_msg(spec_trim(s@)),
                c.logs@[0],
            ) && plain(rethrow_site, c.logs@[1]),
        },
        (Outcome::BadThird(pe), Err(c)) => c.error == AMulBEqCError::Parse(pe) && c.logs@.len()
            == 0,
        (Outcome::Overflow(a, b), Err(c)) => c.error == AMulBEqCError::Overflow(
            MulOverflow(a, b),
        ) && c.logs@.len() == 1 && noted(overflow_site, overflow_msg(a, b), c.logs@[0]),
        _ => false,
    }
}

/// Checks that the first two numbers multiply to the third, tagging
/// errors on the way out as `check_post` says.
pub fn a_mul_b_eq_c(
    a_text: Result<String, IoError>,
    b_text: Result<String, IoError>,
    c_text: Result<String, IoError>,
    parse_site: &Log,
    rethrow_site: &Log,
    overflow_site: &Log,
) -> (r: Result<bool, Cex<AMulBEqCError>>)
    ensures
        check_post(a_text, b_text, c_text, *parse_site, *rethrow_site, *overflow_site, r),
{
    proof {
        lemma_widen_named();
    }
    let ra = read_u32(a_text, parse_site);
    let ra: Result<u32, Cex<AMulBEqCError>> = ra.may_rethrow();
    let a = match ra {
        Ok(v) => v,
        Err(c) => {
            return Err(c);
        },
    };

    let b = match read_u32(b_text, parse_site) {
        Ok(v) => v,
        Err(c) => {
            if a == 0 {
                0
            } else {
                let item = Log::new(
                    rethrow_site.module,
                    rethrow_site.file,
                    rethrow_site.line,
                    rethrow_site.column,
                    None,
                );
                return Err(c.rethrow_log(item));
            }
        },
    };

    let c = match read_u32(c_text, parse_site) {
        Ok(v) => v,
        Err(cex) => match cex.error {
            ReadU32Error::IO(_) => 0,
            ReadU32Error::Parse(pe) => {
                return Err(crate::tagged::thrown(pe));
            },
        },
    };

    match a.checked_mul(b) {
        Some(p) => Ok(p == c),
        None => {
            let mut msg: String = <String as StringExecFns>::from_str("u32 overflow: ");
            crate::text::append_u32_dec(&mut msg, a);
            msg.append(" * ");
            crate::text::append_u32_dec(&mut msg, b);
            let item = Log::new(
                overflow_site.module,
                overflow_site.file,
                overflow_site.line,
                overflow_site.column,
                Some(msg),
            );
            let mut logs: Vec<Log> = Vec::new();
            logs.push(item);
            Err(Cex { error: AMulBEqCError::Overflow(MulOverflow(a, b)), logs })
        },
    }
}

} // verus!
