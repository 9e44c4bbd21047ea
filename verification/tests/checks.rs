use cex::enumx::{Enum2, Enum3};
use cex::log::{Env, Frame, Log};
use cex::scenario::{IoError, IoErrorKind, MulOverflow};
use cex::tagged;
use cex::tagged::{Cex, MayRethrow};
use cex::text::{IntErrorKind, ParseIntError};
use cex::{adhoc, cex_tag, demo, env_opt_logging, map_dyn_err, named, sugar, wrapping_errors};

fn fs(path: &str) -> Result<String, IoError> {
    match path {
        "src/test/0" => Ok("0".to_string()),
        "src/test/3" => Ok("3".to_string()),
        "src/test/7" => Ok("7".to_string()),
        "src/test/21" => Ok("21".to_string()),
        "src/test/not_num" => Ok("not-a-number".to_string()),
        _ => Err(IoError { kind: IoErrorKind::NotFound }),
    }
}

fn adhoc_parse_site() -> tagged::Log {
    tagged::Log::new("cex::test::adhoc", "cex/src/test/adhoc.rs", 12, 35, None)
}

fn adhoc_rethrow_site() -> tagged::Log {
    tagged::Log::new("cex::test::adhoc", "cex/src/test/adhoc.rs", 30, 17, None)
}

fn adhoc_overflow_site() -> tagged::Log {
    tagged::Log::new("cex::test::adhoc", "cex/src/test/adhoc.rs", 45, 22, None)
}

fn adhoc_check(
    a: &str,
    b: &str,
    c: &str,
) -> Result<bool, Cex<Enum3<IoError, ParseIntError, MulOverflow>>> {
    adhoc::a_mul_b_eq_c(
        fs(a),
        fs(b),
        fs(c),
        &adhoc_parse_site(),
        &adhoc_rethrow_site(),
        &adhoc_overflow_site(),
    )
}

#[test]
fn adhoc_test_a_mul_b_eq_c() {
    assert!(adhoc_check("src/test/no_file", "src/test/7", "src/test/21")
        .map_err(|cex| if let Enum3::_0(_) = cex.error { true } else { false })
        .unwrap_err());

    assert!(adhoc_check("src/test/not_num", "src/test/7", "src/test/21")
        .map_err(|cex| if let Enum3::_1(_) = cex.error { true } else { false })
        .unwrap_err());

    assert!(adhoc_check("src/test/3", "src/test/no_file", "src/test/21")
        .map_err(|cex| if let Enum3::_0(_) = cex.error { true } else { false })
        .unwrap_err());

    assert!(adhoc_check("src/test/3", "src/test/not_num", "src/test/21")
        .map_err(|cex| if let Enum3::_1(_) = cex.error { true } else { false })
        .unwrap_err());

    assert!(adhoc_check("src/test/3", "src/test/0", "src/test/0").ok().unwrap());
    assert!(adhoc_check("src/test/0", "src/test/no_file", "src/test/0").ok().unwrap());
    assert!(adhoc_check("src/test/0", "src/test/not_num", "src/test/0").ok().unwrap());
    assert!(adhoc_check("src/test/3", "src/test/7", "src/test/21").ok().unwrap());
}

#[test]
fn adhoc_test_backtrace() {
    let expected: Cex<Enum3<IoError, ParseIntError, MulOverflow>> = Cex {
        error: Enum3::_1(ParseIntError { kind: IntErrorKind::InvalidDigit }),
        logs: vec![
            tagged::Log::new(
                "cex::test::adhoc",
                "cex/src/test/adhoc.rs",
                12,
                35,
                Some("fail in parsing not-a-number to u32".to_string()),
            ),
            tagged::Log::new("cex::test::adhoc", "cex/src/test/adhoc.rs", 30, 17, None),
        ],
    };
    assert_eq!(
        adhoc_check("src/test/3", "src/test/not_num", "src/test/21")
            .map_err(|cex| format!("{:#?}", cex)),
        Err(format!("{:#?}", expected))
    );
}

#[test]
fn cex_tag_test_a_mul_b_eq_c() {
    let check = |a: &str, b: &str, c: &str| cex_tag::a_mul_b_eq_c(fs(a), fs(b), fs(c));

    assert!(check("src/test/no_file", "src/test/7", "src/test/21")
        .map_err(|err| if let cex_tag::AMulBEqCError::IO(_) = err { true } else { false })
        .unwrap_err());

    assert!(check("src/test/not_num", "src/test/7", "src/test/21")
        .map_err(|err| if let cex_tag::AMulBEqCError::Parse(_) = err { true } else { false })
        .unwrap_err());

    assert!(check("src/test/3", "src/test/no_file", "src/test/21")
        .map_err(|err| if let cex_tag::AMulBEqCError::IO(_) = err { true } else { false })
        .unwrap_err());

    assert!(check("src/test/3", "src/test/not_num", "src/test/21")
        .map_err(|err| if let cex_tag::AMulBEqCError::Parse(_) = err { true } else { false })
        .unwrap_err());

    assert!(check("src/test/3", "src/test/0", "src/test/0").ok().unwrap());
    assert!(check("src/test/0", "src/test/no_file", "src/test/0").ok().unwrap());
    assert!(check("src/test/0", "src/test/not_num", "src/test/0").ok().unwrap());
    assert!(check("src/test/3", "src/test/7", "src/test/21").ok().unwrap());
}

#[test]
fn test_misc() {
    assert_eq!(cex_tag::misc(), Err(cex_tag::CexErr::Code(42)));
}

fn named_parse_site() -> tagged::Log {
    tagged::Log::new("cex::test::named", "cex/src/test/named.rs", 20, 35, None)
}

fn named_rethrow_site() -> tagged::Log {
    tagged::Log::new("cex::test::named", "cex/src/test/named.rs", 45, 17, None)
}

fn named_overflow_site() -> tagged::Log {
    tagged::Log::new("cex::test::named", "cex/src/test/named.rs", 60, 22, None)
}

fn named_check(a: &str, b: &str, c: &str) -> Result<bool, Cex<cex_tag::AMulBEqCError>> {
    named::a_mul_b_eq_c(
        fs(a),
        fs(b),
        fs(c),
        &named_parse_site(),
        &named_rethrow_site(),
        &named_overflow_site(),
    )
}

#[test]
fn named_test_a_mul_b_eq_c() {
    assert!(named_check("src/test/no_file", "src/test/7", "src/test/21")
        .map_err(|cex| if let cex_tag::AMulBEqCError::IO(_) = cex.error { true } else { false })
        .unwrap_err());

    assert!(named_check("src/test/not_num", "src/test/7", "src/test/21")
        .map_err(
            |cex| if let cex_tag::AMulBEqCError::Parse(_) = cex.error { true } else { false }
        )
        .unwrap_err());

    assert!(named_check("src/test/3", "src/test/no_file", "src/test/21")
        .map_err(|cex| if let cex_tag::AMulBEqCError::IO(_) = cex.error { true } else { false })
        .unwrap_err());

    assert!(named_check("src/test/3", "src/test/not_num", "src/test/21")
        .map_err(
            |cex| if let cex_tag::AMulBEqCError::Parse(_) = cex.error { true } else { false }
        )
        .unwrap_err());

    assert!(named_check("src/test/3", "src/test/0", "src/test/0").ok().unwrap());
    assert!(named_check("src/test/0", "src/test/no_file", "src/test/0").ok().unwrap());
    assert!(named_check("src/test/0", "src/test/not_num", "src/test/0").ok().unwrap());
    assert!(named_check("src/test/3", "src/test/7", "src/test/21").ok().unwrap());
}

#[test]
fn named_test_backtrace() {
    let expected: Cex<cex_tag::AMulBEqCError> = Cex {
        error: cex_tag::AMulBEqCError::Parse(ParseIntError { kind: IntErrorKind::InvalidDigit }),
        logs: vec![
            tagged::Log::new(
                "cex::test::named",
                "cex/src/test/named.rs",
                20,
                35,
                Some("fail in parsing not-a-number to u32".to_string()),
            ),
            tagged::Log::new("cex::test::named", "cex/src/test/named.rs", 45, 17, None),
        ],
    };
    assert_eq!(
        named_check("src/test/3", "src/test/not_num", "src/test/21")
            .map_err(|cex| format!("{:#?}", cex)),
        Err(format!("{:#?}", expected))
    );
}

fn sugar_parse_site() -> tagged::Log {
    tagged::Log::new("cex::test::sugar", "cex/src/test/sugar.rs", 5, 1, None)
}

fn sugar_rethrow_site() -> tagged::Log {
    tagged::Log::new("cex::test::sugar", "cex/src/test/sugar.rs", 24, 1, None)
}

fn sugar_overflow_site() -> tagged::Log {
    tagged::Log::new("cex::test::sugar", "cex/src/test/sugar.rs", 24, 1, None)
}

fn sugar_check(a: &str, b: &str, c: &str) -> Result<bool, Cex<sugar::CheckErr>> {
    sugar::a_mul_b_eq_c(
        fs(a),
        fs(b),
        fs(c),
        &sugar_parse_site(),
        &sugar_rethrow_site(),
        &sugar_overflow_site(),
    )
}

#[test]
fn sugar_test_a_mul_b_eq_c() {
    assert!(sugar_check("src/test/no_file", "src/test/7", "src/test/21")
        .map_err(|cex| if let sugar::CheckErr::IO(_) = cex.error { true } else { false })
        .unwrap_err());

    assert!(sugar_check("src/test/not_num", "src/test/7", "src/test/21")
        .map_err(|cex| if let sugar::CheckErr::Parse(_) = cex.error { true } else { false })
        .unwrap_err());

    assert!(sugar_check("src/test/3", "src/test/no_file", "src/test/21")
        .map_err(|cex| if let sugar::CheckErr::IO(_) = cex.error { true } else { false })
        .unwrap_err());

    assert!(sugar_check("src/test/3", "src/test/not_num", "src/test/21")
        .map_err(|cex| if let sugar::CheckErr::Parse(_) = cex.error { true } else { false })
        .unwrap_err());

    assert!(sugar_check("src/test/3", "src/test/0", "src/test/0").ok().unwrap());
    assert!(sugar_check("src/test/0", "src/test/no_file", "src/test/0").ok().unwrap());
    assert!(sugar_check("src/test/0", "src/test/not_num", "src/test/0").ok().unwrap());
    assert!(sugar_check("src/test/3", "src/test/7", "src/test/21").ok().unwrap());
}

#[test]
fn sugar_test_backtrace() {
    let expected: Cex<sugar::CheckErr> = Cex {
        error: sugar::CheckErr::Parse(ParseIntError { kind: IntErrorKind::InvalidDigit }),
        logs: vec![
            tagged::Log::new(
                "cex::test::sugar",
                "cex/src/test/sugar.rs",
                5,
                1,
                Some("fail in parsing not-a-number to u32".to_string()),
            ),
            tagged::Log::new("cex::test::sugar", "cex/src/test/sugar.rs", 24, 1, None),
        ],
    };
    assert_eq!(
        sugar_check("src/test/3", "src/test/not_num", "src/test/21")
            .map_err(|cex| format!("{:#?}", cex)),
        Err(format!("{:#?}", expected))
    );
}

#[test]
fn demo_test_backtrace() {
    let read_site = Frame::new("cex::test::demo", "cex/src/test/demo.rs", 12, 1, None);
    let log_site = Frame::new("cex::test::demo", "cex/src/test/demo.rs", 35, 1, None);
    let overflow_site = Frame::new("cex::test::demo", "cex/src/test/demo.rs", 63, 10, None);
    let got = demo::a_mul_b_eq_c(
        fs("src/test/3"),
        fs("src/test/not_num"),
        fs("src/test/21"),
        &read_site,
        &log_site,
        &overflow_site,
    );
    let expected = demo::AMulBEqCError::Parse(Log {
        error: ParseIntError { kind: IntErrorKind::InvalidDigit },
        agent: vec![Frame::new("cex::test::demo", "cex/src/test/demo.rs", 12, 1, None)],
    });
    assert_eq!(
        got.map_err(|err| format!("{:#?}", err)),
        Err(format!("{:#?}", expected))
    );
}

fn env_check(a: &str, b: &str, c: &str) -> Result<bool, env_opt_logging::AMulBEqCError> {
    let read_site = Frame::new(
        "cex::test::env_opt_logging",
        "cex/src/test/env_opt_logging.rs",
        17,
        23,
        None,
    );
    let log_site = Frame::new(
        "cex::test::env_opt_logging",
        "cex/src/test/env_opt_logging.rs",
        43,
        45,
        None,
    );
    let overflow_site = Frame::new(
        "cex::test::env_opt_logging",
        "cex/src/test/env_opt_logging.rs",
        66,
        7,
        None,
    );
    env_opt_logging::a_mul_b_eq_c(
        fs(a),
        fs(b),
        fs(c),
        &read_site,
        &log_site,
        &overflow_site,
        false,
    )
}

#[test]
fn env_opt_logging_test_a_mul_b_eq_c() {
    assert!(env_check("src/test/no_file", "src/test/7", "src/test/21")
        .map_err(
            |err| if let env_opt_logging::AMulBEqCError::IO(_) = err { true } else { false }
        )
        .unwrap_err());

    assert!(env_check("src/test/not_num", "src/test/7", "src/test/21")
        .map_err(
            |err| if let env_opt_logging::AMulBEqCError::Parse(_) = err { true } else { false }
        )
        .unwrap_err());

    assert!(env_check("src/test/3", "src/test/no_file", "src/test/21")
        .map_err(
            |err| if let env_opt_logging::AMulBEqCError::IO(_) = err { true } else { false }
        )
        .unwrap_err());

    assert!(env_check("src/test/3", "src/test/not_num", "src/test/21")
        .map_err(
            |err| if let env_opt_logging::AMulBEqCError::Parse(_) = err { true } else { false }
        )
        .unwrap_err());

    assert!(env_check("src/test/3", "src/test/0", "src/test/0").ok().unwrap());
    assert!(env_check("src/test/0", "src/test/no_file", "src/test/0").ok().unwrap());
    assert!(env_check("src/test/0", "src/test/not_num", "src/test/0").ok().unwrap());
    assert!(env_check("src/test/3", "src/test/7", "src/test/21").ok().unwrap());
}

#[test]
fn env_opt_logging_test_backtrace() {
    let expected = env_opt_logging::AMulBEqCError::Parse(Log {
        error: ParseIntError { kind: IntErrorKind::InvalidDigit },
        agent: Env { agent: vec![], enabled: false },
    });
    assert_eq!(
        env_check("src/test/3", "src/test/not_num", "src/test/21")
            .map_err(|err| format!("{:#?}", err)),
        Err(format!("{:#?}", expected))
    );
}

#[test]
fn map_dyn_err_test_a_mul_b_eq_c() {
    let check = |a: &str, b: &str, c: &str| map_dyn_err::a_mul_b_eq_c(fs(a), fs(b), fs(c));

    assert!(check("src/test/no_file", "src/test/7", "src/test/21")
        .map_err(
            |err| if let map_dyn_err::AMulBEqCError::Other(_) = err { true } else { false }
        )
        .unwrap_err());

    assert!(check("src/test/not_num", "src/test/7", "src/test/21")
        .map_err(
            |err| if let map_dyn_err::AMulBEqCError::Parse(_) = err { true } else { false }
        )
        .unwrap_err());

    assert!(check("src/test/3", "src/test/no_file", "src/test/21")
        .map_err(
            |err| if let map_dyn_err::AMulBEqCError::Other(_) = err { true } else { false }
        )
        .unwrap_err());

    assert!(check("src/test/3", "src/test/not_num", "src/test/21")
        .map_err(
            |err| if let map_dyn_err::AMulBEqCError::Parse(_) = err { true } else { false }
        )
        .unwrap_err());

    assert!(check("src/test/3", "src/test/0", "src/test/0").ok().unwrap());
    assert!(check("src/test/0", "src/test/no_file", "src/test/0").ok().unwrap());
    assert!(check("src/test/0", "src/test/not_num", "src/test/0").ok().unwrap());
    assert!(check("src/test/3", "src/test/7", "src/test/21").ok().unwrap());
}

#[test]
fn wrapping_errors_test_a_mul_b_eq_c() {
    let check = |a: &str, b: &str, c: &str| wrapping_errors::a_mul_b_eq_c(fs(a), fs(b), fs(c));

    assert!(check("src/test/no_file", "src/test/7", "src/test/21")
        .map_err(|error| if let wrapping_errors::Error::IO(_) = error { true } else { false })
        .unwrap_err());

    assert!(check("src/test/not_num", "src/test/7", "src/test/21")
        .map_err(
            |error| if let wrapping_errors::Error::Parse(_) = error { true } else { false }
        )
        .unwrap_err());

    assert!(check("src/test/3", "src/test/no_file", "src/test/21")
        .map_err(|error| if let wrapping_errors::Error::IO(_) = error { true } else { false })
        .unwrap_err());

    assert!(check("src/test/3", "src/test/not_num", "src/test/21")
        .map_err(
            |error| if let wrapping_errors::Error::Parse(_) = error { true } else { false }
        )
        .unwrap_err());

    assert!(check("src/test/3", "src/test/0", "src/test/0").ok().unwrap());
    assert!(check("src/test/0", "src/test/no_file", "src/test/0").ok().unwrap());
    assert!(check("src/test/0", "src/test/not_num", "src/test/0").ok().unwrap());
    assert!(check("src/test/3", "src/test/7", "src/test/21").ok().unwrap());
}

#[test]
fn demo_value_backtrace_is_exact() {
    let read_site = Frame::new("cex::test::demo", "cex/src/test/demo.rs", 12, 1, None);
    let log_site = Frame::new("cex::test::demo", "cex/src/test/demo.rs", 35, 1, None);
    let overflow_site = Frame::new("cex::test::demo", "cex/src/test/demo.rs", 63, 10, None);
    let got = demo::a_mul_b_eq_c(
        fs("src/test/no_file"),
        fs("src/test/7"),
        fs("src/test/21"),
        &read_site,
        &log_site,
        &overflow_site,
    );
    let expected = demo::AMulBEqCError::IO(Log {
        error: IoError { kind: IoErrorKind::NotFound },
        agent: vec![
            Frame::new("cex::test::demo", "cex/src/test/demo.rs", 12, 1, None),
            Frame::new("cex::test::demo", "cex/src/test/demo.rs", 35, 1, None),
        ],
    });
    assert_eq!(got, Err(expected));
}

#[test]
fn adhoc_test_read_u32() {
    let read = |path: &str| adhoc::read_u32(fs(path), &adhoc_parse_site());

    assert!(read("src/test/no_file")
        .map_err(|cex| if let Enum2::_0(_) = cex.error { true } else { false })
        .unwrap_err());

    assert!(read("src/test/not_num")
        .map_err(|cex| if let Enum2::_1(_) = cex.error { true } else { false })
        .unwrap_err());

    assert_eq!(read("src/test/3").ok().unwrap(), 3);
}

#[test]
fn cex_tag_test_read_u32() {
    let read = |path: &str| cex_tag::read_u32(fs(path));

    assert!(read("src/test/no_file")
        .map_err(|err| if let cex_tag::ReadU32Error::IO(_) = err { true } else { false })
        .unwrap_err());

    assert!(read("src/test/not_num")
        .map_err(|err| if let cex_tag::ReadU32Error::Parse(_) = err { true } else { false })
        .unwrap_err());

    assert_eq!(read("src/test/3").ok().unwrap(), 3);
}

#[test]
fn named_test_read_u32() {
    let read = |path: &str| named::read_u32(fs(path), &named_parse_site());

    assert!(read("src/test/no_file")
        .map_err(|cex| if let cex_tag::ReadU32Error::IO(_) = cex.error { true } else { false })
        .unwrap_err());

    assert!(read("src/test/not_num")
        .map_err(
            |cex| if let cex_tag::ReadU32Error::Parse(_) = cex.error { true } else { false }
        )
        .unwrap_err());

    assert_eq!(read("src/test/3").ok().unwrap(), 3);
}

#[test]
fn sugar_test_read_u32() {
    let read = |path: &str| sugar::read_u32(fs(path), &sugar_parse_site());

    assert!(read("src/test/no_file")
        .map_err(|cex| if let sugar::ReadErr::IO(_) = cex.error { true } else { false })
        .unwrap_err());

    assert!(read("src/test/not_num")
        .map_err(|cex| if let sugar::ReadErr::Parse(_) = cex.error { true } else { false })
        .unwrap_err());

    assert_eq!(read("src/test/3").ok().unwrap(), 3);
}

#[test]
fn env_opt_logging_test_read_u32() {
    let site = Frame::new(
        "cex::test::env_opt_logging",
        "cex/src/test/env_opt_logging.rs",
        17,
        23,
        None,
    );
    let read = |path: &str| env_opt_logging::read_u32(fs(path), &site, false);

    assert!(read("src/test/no_file")
        .map_err(
            |err| if let env_opt_logging::ReadU32Error::IO(_) = err { true } else { false }
        )
        .unwrap_err());

    assert!(read("src/test/not_num")
        .map_err(
            |err| if let env_opt_logging::ReadU32Error::Parse(_) = err { true } else { false }
        )
        .unwrap_err());

    assert_eq!(read("src/test/3").ok().unwrap(), 3);
}

#[test]
fn map_dyn_err_test_read_u32() {
    let read = |path: &str| map_dyn_err::read_u32(fs(path));

    assert!(read("src/test/no_file")
        .map_err(|err| if let map_dyn_err::ReadU32Error::Other(_) = err { true } else { false })
        .unwrap_err());

    assert!(read("src/test/not_num")
        .map_err(|err| if let map_dyn_err::ReadU32Error::Parse(_) = err { true } else { false })
        .unwrap_err());

    assert_eq!(read("src/test/3").ok().unwrap(), 3);
}

#[test]
fn wrapping_errors_test_read_u32() {
    let read = |path: &str| wrapping_errors::read_u32(fs(path));

    assert!(read("src/test/no_file")
        .map_err(|error| if let wrapping_errors::Error::IO(_) = error { true } else { false })
        .unwrap_err());

    assert!(read("src/test/not_num")
        .map_err(
            |error| if let wrapping_errors::Error::Parse(_) = error { true } else { false }
        )
        .unwrap_err());

    assert_eq!(read("src/test/3").ok().unwrap(), 3);
}

#[test]
fn demo_test_read_u32() {
    let site = Frame::new("cex::test::demo", "cex/src/test/demo.rs", 12, 1, None);
    let read = |path: &str| demo::read_u32(fs(path), &site);

    assert!(read("src/test/no_file")
        .map_err(|err| if let demo::ReadU32Error::IO(_) = err { true } else { false })
        .unwrap_err());

    assert!(read("src/test/not_num")
        .map_err(|err| if let demo::ReadU32Error::Parse(_) = err { true } else { false })
        .unwrap_err());

    assert_eq!(read("src/test/3").ok().unwrap(), 3);
}

fn read_u32_throws_adhoc(
    path: &str,
) -> Result<u32, Cex<Enum2<IoError, ParseIntError>>> {
    named::read_u32(fs(path), &named_parse_site()).may_rethrow()
}

fn read_u32_throws_named(path: &str) -> Result<u32, Cex<cex_tag::AMulBEqCError>> {
    read_u32_throws_adhoc(path).may_rethrow()
}

#[test]
fn test_mix_named_with_adhoc() {
    assert!(read_u32_throws_adhoc("src/test/no_file").is_err());
    assert!(read_u32_throws_named("src/test/no_file").is_err());
}

#[test]
fn env_opt_logging_keeps_frames_when_traced() {
    let read_site = Frame::new(
        "cex::test::env_opt_logging",
        "cex/src/test/env_opt_logging.rs",
        17,
        23,
        None,
    );
    let log_site = Frame::new(
        "cex::test::env_opt_logging",
        "cex/src/test/env_opt_logging.rs",
        43,
        45,
        None,
    );
    let overflow_site = Frame::new(
        "cex::test::env_opt_logging",
        "cex/src/test/env_opt_logging.rs",
        66,
        7,
        None,
    );
    let got = env_opt_logging::a_mul_b_eq_c(
        fs("src/test/3"),
        fs("src/test/not_num"),
        fs("src/test/21"),
        &read_site,
        &log_site,
        &overflow_site,
        true,
    );
    let expected = env_opt_logging::AMulBEqCError::Parse(Log {
        error: ParseIntError { kind: IntErrorKind::InvalidDigit },
        agent: Env {
            agent: vec![
                Frame::new(
                    "cex::test::env_opt_logging",
                    "cex/src/test/env_opt_logging.rs",
                    17,
                    23,
                    None,
                ),
                Frame::new(
                    "cex::test::env_opt_logging",
                    "cex/src/test/env_opt_logging.rs",
                    43,
                    45,
                    None,
                ),
            ],
            enabled: true,
        },
    });
    assert_eq!(got, Err(expected));
}
