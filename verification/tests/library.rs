use cex::ce::Ce1;
use cex::dyn_err::{DynErr, MapDynErr, MapErrTo};
use cex::enumx::proto::Proto2;
use cex::enumx::{Enum1, Enum2, Proto};
use cex::infer;
use cex::infer::ThrowShape;
use cex::log::{Env, Frame, Log, LogAgent, Logger, MapErrLog, MapErrToLog, MapLog, MapToLog,
    NoLog, ToLog};
use cex::result::{MapErrorLog, Ret, RetLog, Throw, ThrowLog};
use cex::scenario::{read_number, IoError, IoErrorKind};
use cex::text::{parse_u32, trim, IntErrorKind, ParseIntError};
use cex::wrapping_errors;

fn frame(line: u32) -> Frame {
    Frame::new("checks", "checks.rs", line, 1, None)
}

#[test]
fn frame_new_fills_every_field() {
    let f = Frame::new("m", "f.rs", 3, 9, Some("note".to_string()));
    assert_eq!(f.module, "m");
    assert_eq!(f.file, "f.rs");
    assert_eq!(f.line, 3);
    assert_eq!(f.column, 9);
    assert_eq!(f.info, Some("note".to_string()));
}

#[test]
fn ret_wraps_a_plain_value() {
    let r: Result<u32, Enum1<String>> = 5u32.ret();
    assert_eq!(r, Ok(5));
}

#[test]
fn ret_widens_the_error_of_a_result() {
    let x: Result<u32, Enum1<String>> = Err(Enum1::_0("oops".to_string()));
    let y: Result<u32, Enum2<bool, String>> = x.ret();
    assert_eq!(y, Err(Enum2::_1("oops".to_string())));
}

#[test]
fn throw_injects_a_bare_error() {
    let r: Result<u32, Enum2<String, i32>> = 7i32.throw();
    assert_eq!(r, Err(Enum2::_1(7)));
}

#[test]
fn ret_log_records_one_frame_on_the_error_path() {
    let x: Result<u32, ParseIntError> = Err(ParseIntError { kind: IntErrorKind::Empty });
    let y: Result<u32, Enum1<Log<ParseIntError>>> = x.ret_log(frame(1));
    match y {
        Err(Enum1::_0(l)) => {
            assert_eq!(l.error, ParseIntError { kind: IntErrorKind::Empty });
            assert_eq!(l.agent, vec![frame(1)]);
        },
        _ => panic!("expected a logged error"),
    }
}

#[test]
fn ret_log_leaves_the_ok_path_alone() {
    let x: Result<u32, ParseIntError> = Ok(3);
    let y: Result<u32, Enum1<Log<ParseIntError>>> = x.ret_log(frame(1));
    assert_eq!(y, Ok(3));
}

#[test]
fn throw_log_wraps_and_records() {
    let pe = ParseIntError { kind: IntErrorKind::PosOverflow };
    let r: Result<u32, Enum1<Log<ParseIntError>>> = pe.throw_log(frame(2));
    match r {
        Err(Enum1::_0(l)) => {
            assert_eq!(l.error, pe);
            assert_eq!(l.agent, vec![frame(2)]);
        },
        _ => panic!("expected a logged error"),
    }
}

#[test]
fn throw_log_appends_to_a_carried_log() {
    let l: Log<ParseIntError> = ParseIntError { kind: IntErrorKind::Empty }.to_log(frame(1));
    let r: Result<u32, Enum1<Log<ParseIntError>>> = l.throw_log(frame(2));
    match r {
        Err(Enum1::_0(l)) => {
            assert_eq!(l.agent, vec![frame(1), frame(2)]);
        },
        _ => panic!("expected a logged error"),
    }
}

#[test]
fn map_error_log_throws_the_error_with_a_frame() {
    let x: Result<u32, ParseIntError> = Err(ParseIntError { kind: IntErrorKind::Empty });
    let y: Result<u32, Enum1<Log<ParseIntError>>> = x.map_error_log(frame(4));
    match y {
        Err(Enum1::_0(l)) => {
            assert_eq!(l.agent, vec![frame(4)]);
        },
        _ => panic!("expected a logged error"),
    }
}

#[test]
fn string_agent_keeps_a_line_per_item() {
    let l: Log<i32, String> = 5.to_log("first".to_string());
    assert_eq!(l.agent, "first".to_string());
    let l = l.log("second".to_string());
    assert_eq!(l.error, 5);
    assert_eq!(l.agent, "first\nsecond".to_string());
}

#[test]
fn phantom_agent_keeps_nothing() {
    let l: NoLog<i32> = 5.to_log(frame(1));
    assert_eq!(l.error, 5);
    let l = l.log(frame(2));
    assert_eq!(l.error, 5);
}

#[test]
fn env_agent_drops_items_while_the_switch_is_off() {
    let e: Env<Vec<Frame>> = <Env<Vec<Frame>> as LogAgent>::create_log(frame(1));
    assert_eq!(e, Env { agent: vec![], enabled: false });
    let l: Log<i32, Env<Vec<Frame>>> = 5.to_log(frame(1));
    let l = l.log(frame(2));
    assert_eq!(l.agent, Env { agent: vec![], enabled: false });
}

#[test]
fn env_agent_keeps_items_while_the_switch_is_on() {
    let e: Env<Vec<Frame>> = Env::create_switched(true, frame(1));
    assert_eq!(e, Env { agent: vec![frame(1)], enabled: true });
    let l: Log<i32, Env<Vec<Frame>>> = Log { error: 5, agent: e };
    let l = l.log(frame(2));
    assert_eq!(l.agent, Env { agent: vec![frame(1), frame(2)], enabled: true });

    let off: Env<Vec<Frame>> = Env::create_switched(false, frame(1));
    assert_eq!(off, Env { agent: vec![], enabled: false });
    let fresh: Env<Vec<Frame>> = Env::switched(true);
    assert_eq!(fresh, Env { agent: vec![], enabled: true });
}

#[test]
fn logger_reaches_into_a_sum_type() {
    let e: Enum2<Log<i32>, Log<bool>> = Enum2::_0(5.to_log(frame(1)));
    let e = e.log(frame(2));
    match e {
        Enum2::_0(l) => assert_eq!(l.agent, vec![frame(1), frame(2)]),
        _ => panic!("the variant may not change"),
    }
}

#[test]
fn map_to_log_wraps_the_ok_value() {
    let x: Result<i32, bool> = Ok(5);
    let y: Result<Log<i32>, bool> = x.map_to_log(frame(1));
    match y {
        Ok(l) => {
            assert_eq!(l.error, 5);
            assert_eq!(l.agent, vec![frame(1)]);
        },
        _ => panic!("expected a logged value"),
    }
}

#[test]
fn map_err_to_log_wraps_the_error() {
    let x: Result<i32, bool> = Err(true);
    let y: Result<i32, Log<bool>> = x.map_err_to_log(frame(1));
    match y {
        Err(l) => {
            assert_eq!(l.error, true);
            assert_eq!(l.agent, vec![frame(1)]);
        },
        _ => panic!("expected a logged error"),
    }
}

#[test]
fn map_log_and_map_err_log_append() {
    let x: Result<Log<i32>, bool> = Ok(5.to_log(frame(1)));
    let y = x.map_log(frame(2));
    assert_eq!(y.unwrap().agent, vec![frame(1), frame(2)]);

    let x: Result<i32, Log<bool>> = Err(true.to_log(frame(1)));
    let y = x.map_err_log(frame(2));
    assert_eq!(y.unwrap_err().agent, vec![frame(1), frame(2)]);
}

#[test]
fn map_err_to_converts_through_from() {
    let x: Result<i32, IoError> = Err(IoError { kind: IoErrorKind::NotFound });
    let y: Result<i32, wrapping_errors::Error> = x.map_err_to();
    assert_eq!(y, Err(wrapping_errors::Error::IO(IoError { kind: IoErrorKind::NotFound })));
}

#[test]
fn map_dyn_err_folds_into_the_opaque_error() {
    let x: Result<i32, IoError> = Err(IoError { kind: IoErrorKind::NotFound });
    let y: Result<i32, DynErr> = x.map_dyn_err();
    assert_eq!(y.unwrap_err().description, "entity not found".to_string());
}

#[test]
fn ce_trace_appends_a_frame() {
    let e = Ce1::<i32>::_0(7);
    assert_eq!(e.backtrace, vec![]);
    let e = e.trace(frame(1));
    assert_eq!(e.error, Enum1::_0(7));
    assert_eq!(e.backtrace, vec![frame(1)]);
}

#[test]
fn trim_removes_whitespace_at_both_ends() {
    assert_eq!(trim("  3\t\n"), "3");
    assert_eq!(trim("not-a-number"), "not-a-number");
    assert_eq!(trim(" \t "), "");
    assert_eq!(trim(""), "");
}

#[test]
fn parse_u32_reads_decimal_text() {
    assert_eq!(parse_u32("42"), Ok(42));
    assert_eq!(parse_u32("+7"), Ok(7));
    assert_eq!(parse_u32("0"), Ok(0));
    assert_eq!(parse_u32("4294967295"), Ok(4294967295));
    assert_eq!(parse_u32(""), Err(ParseIntError { kind: IntErrorKind::Empty }));
    assert_eq!(parse_u32("+"), Err(ParseIntError { kind: IntErrorKind::InvalidDigit }));
    assert_eq!(parse_u32("12x"), Err(ParseIntError { kind: IntErrorKind::InvalidDigit }));
    assert_eq!(parse_u32("-3"), Err(ParseIntError { kind: IntErrorKind::InvalidDigit }));
    assert_eq!(parse_u32("4294967296"), Err(ParseIntError { kind: IntErrorKind::PosOverflow }));
}

#[test]
fn read_number_trims_then_parses() {
    assert_eq!(read_number(Ok("  42 ".to_string())), Ok(42));
    let r = read_number(Err(IoError { kind: IoErrorKind::NotFound }));
    assert_eq!(r, Err(Enum2::_0(IoError { kind: IoErrorKind::NotFound })));
}

#[test]
fn dedup_throws_keeps_first_occurrences() {
    assert_eq!(infer::dedup_throws(&vec![1, 2, 1, 3, 2]), vec![1, 2, 3]);
    assert_eq!(infer::dedup_throws(&vec![]), Vec::<u64>::new());
}

#[test]
fn the_three_channel_modes_dress_the_throws() {
    let throws = vec![7, 7, 8];
    assert_eq!(infer::cex(&throws), vec![ThrowShape::Plain(7), ThrowShape::Plain(8)]);
    assert_eq!(infer::cex_log(&throws), vec![ThrowShape::Logged(7), ThrowShape::Logged(8)]);
    assert_eq!(
        infer::cex_env_log(&throws),
        vec![ThrowShape::EnvLogged(7), ThrowShape::EnvLogged(8)]
    );
}

#[test]
fn exchange_indices_resolves_first_positions() {
    assert_eq!(infer::exchange_indices(&vec![2, 1], &vec![1, 2, 3]), Some(vec![1, 0]));
    assert_eq!(infer::exchange_indices(&vec![], &vec![1]), Some(vec![]));
    assert_eq!(infer::exchange_indices(&vec![4], &vec![1, 2]), None);
    assert_eq!(infer::exchange_indices(&vec![2, 2], &vec![2, 2]), Some(vec![0, 0]));
}

#[test]
fn gen_throws_arms_lists_the_unhandled_throws() {
    assert_eq!(infer::gen_throws_arms(&vec![2], &vec![1, 2, 3]), vec![1, 3]);
    assert_eq!(infer::gen_throws_arms(&vec![1, 2, 3], &vec![1, 2, 3]), Vec::<u64>::new());
}

fn payload(ty: u64) -> infer::VariantShape {
    infer::VariantShape { ty, fields: 1, named: false }
}

#[test]
fn derive_exchange_plans_one_injection_per_variant() {
    let plan = infer::derive_exchange(&vec![payload(5), payload(6), payload(7)]).unwrap();
    assert_eq!(plan.injections, vec![5, 6, 7]);
    assert_eq!(plan.proto_arity, 3);

    let bad = vec![payload(5), infer::VariantShape { ty: 6, fields: 2, named: false }];
    assert!(infer::derive_exchange(&bad).is_none());
}

#[test]
fn the_derives_accept_single_unnamed_payloads_only() {
    let vs = vec![payload(3), payload(4)];
    assert_eq!(infer::derive_from_variant(&vs), Some(vec![3, 4]));
    assert_eq!(infer::derive_proto(&vs), Some(2));
    assert_eq!(infer::derive_logger(&vs), Some(vec![3, 4]));

    let named = vec![infer::VariantShape { ty: 3, fields: 1, named: true }];
    assert!(infer::derive_from_variant(&named).is_none());
    assert!(infer::derive_proto(&named).is_none());
    assert!(infer::derive_logger(&named).is_none());
}

#[test]
fn the_rewriter_entries_dispatch_on_their_target() {
    let throws = vec![1, 1, 2];
    assert_eq!(
        infer::expand_cex(infer::LoggerMode::Static, infer::MacroTarget::FnItem, &throws),
        Some(vec![ThrowShape::Logged(1), ThrowShape::Logged(2)])
    );
    assert_eq!(
        infer::expand_cex(infer::LoggerMode::Off, infer::MacroTarget::Other, &throws),
        None
    );
    assert_eq!(infer::enumx(infer::MacroTarget::Closure, &throws), Some(vec![1, 2]));
    assert_eq!(infer::enumx(infer::MacroTarget::Other, &throws), None);
}

#[test]
fn the_result_channels_dress_their_throws() {
    let throws = vec![7, 8, 7];
    let c = infer::ResultLog(42, &throws);
    assert_eq!(c.ok, 42);
    assert_eq!(c.throws, vec![ThrowShape::Logged(7), ThrowShape::Logged(8)]);
    let c = infer::ResultEnvLog(42, &throws);
    assert_eq!(c.throws, vec![ThrowShape::EnvLogged(7), ThrowShape::EnvLogged(8)]);
    let e = infer::Enum(&vec![7, 8, 7]);
    assert_eq!(e.arity, 3);
    assert_eq!(e.variants, vec![7, 8, 7]);
}

#[test]
fn ty_pat_attributes_parse_case_by_case() {
    assert!(matches!(
        infer::parse_ty_pat_attr(infer::LoggerMode::Off, infer::TyPatShape::NotTyPat),
        infer::TyPatParse::NotApplicable
    ));
    assert!(matches!(
        infer::parse_ty_pat_attr(infer::LoggerMode::Off, infer::TyPatShape::NoArgs),
        infer::TyPatParse::Parsed(infer::TyPatKind::Bare)
    ));
    assert!(matches!(
        infer::parse_ty_pat_attr(infer::LoggerMode::Off, infer::TyPatShape::Gen(vec![])),
        infer::TyPatParse::Parsed(infer::TyPatKind::GenThrows)
    ));
    match infer::parse_ty_pat_attr(
        infer::LoggerMode::Static,
        infer::TyPatShape::Gen(vec![4, 4, 5]),
    ) {
        infer::TyPatParse::Parsed(infer::TyPatKind::Gen(c)) => {
            assert_eq!(c, vec![ThrowShape::Logged(4), ThrowShape::Logged(5)]);
        }
        _ => panic!("a type list parses to a generated set"),
    }
    assert!(matches!(
        infer::parse_ty_pat_attr(infer::LoggerMode::Off, infer::TyPatShape::OtherArg),
        infer::TyPatParse::Invalid
    ));
}

#[test]
fn proto_round_trip_on_a_value() {
    let e = Enum2::<i32, bool>::_1(true);
    let p = e.into_proto();
    assert!(matches!(p, Proto2::_1(true)));
    let back = Enum2::<i32, bool>::from_proto(p);
    assert_eq!(back, Enum2::_1(true));
}

#[test]
fn dedup_output_has_no_repetitions() {
    let d = infer::dedup_throws(&vec![9, 9, 9, 2, 9, 2]);
    assert_eq!(d, vec![9, 2]);
    for i in 0..d.len() {
        for j in (i + 1)..d.len() {
            assert_ne!(d[i], d[j]);
        }
    }
}

#[test]
fn ty_pat_match_resolves_arms_and_generates_the_rest() {
    let (positions, missing) = infer::ty_pat_match(&vec![5], &vec![4, 5, 6]).unwrap();
    assert_eq!(positions, vec![1]);
    assert_eq!(missing, vec![4, 6]);
    assert!(infer::ty_pat_match(&vec![9], &vec![4, 5, 6]).is_none());
}
