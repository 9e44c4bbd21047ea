use cex::ce::{Ce1, Ce2, Ce3};
use cex::enumx::{Enum2, Enum3, ExchangeInto};
use cex::locals::{returns_only_fatal_errors_v4, returns_only_fatal_errors_v5};
use cex::result::Throw;

fn f2(quit: usize) -> Result<(), Ce2<String, i32>> {
    match quit {
        0 => Err(Ce2::_0("runtime error".to_string())),
        1 => Err(Ce2::_1(0xdead)),
        _ => Ok(()),
    }
}

fn widen_ce(e: Ce2<String, i32>) -> Ce3<String, i32, bool> {
    match e.error {
        Enum2::_0(s) => Ce3::_0(s),
        Enum2::_1(n) => Ce3::_1(n),
    }
}

fn f3(quit: usize) -> Result<(), Ce3<String, i32, bool>> {
    match quit {
        0 | 1 => match f2(quit) {
            Ok(v) => Ok(v),
            Err(e) => Err(widen_ce(e)),
        },
        2 => Err(Ce3::_2(false)),
        _ => Ok(()),
    }
}

fn g(quit: usize) -> Result<(), String> {
    match f3(quit) {
        Ok(_) => Ok(()),
        Err(err) => match err.error {
            Enum3::_0(string) => Err(string),
            Enum3::_1(errno) => Err(format!("errno: 0x{:x}", errno)),
            Enum3::_2(flag) => Err(format!("flag: {}", flag)),
        },
    }
}

#[test]
fn test_cex_fn() {
    assert_eq!(f2(0), Err(Ce2::_0("runtime error".to_string())));
    assert_eq!(f2(1), Err(Ce2::_1(0xdead)));
    assert_eq!(f2(2), Ok(()));

    assert_eq!(f3(0), Err(Ce3::_0("runtime error".to_string())));
    assert_eq!(f3(1), Err(Ce3::_1(0xdead)));
    assert_eq!(f3(2), Err(Ce3::_2(false)));
    assert_eq!(f3(3), Ok(()));

    assert_eq!(g(0), Err("runtime error".to_string()));
    assert_eq!(g(1), Err("errno: 0xdead".to_string()));
    assert_eq!(g(2), Err("flag: false".to_string()));
    assert_eq!(g(3), Ok(()));
}

fn f2e(quit: usize) -> Result<(), Enum2<String, i32>> {
    match quit {
        0 => "runtime error".to_string().throw(),
        1 => 0xdead.throw(),
        _ => Ok(()),
    }
}

fn f3e(quit: usize) -> Result<(), Enum3<String, i32, bool>> {
    match quit {
        0 | 1 => match f2e(quit) {
            Ok(v) => Ok(v),
            Err(e) => Err(e.exchange_into()),
        },
        2 => false.throw(),
        _ => Ok(()),
    }
}

fn g3e(variant_index: usize) -> Result<(), Enum3<i32, bool, String>> {
    match variant_index {
        0 | 1 => match f2e(variant_index) {
            Ok(v) => Ok(v),
            Err(e) => Err(e.exchange_into()),
        },
        _ => match f3e(variant_index) {
            Ok(v) => Ok(v),
            Err(e) => Err(e.exchange_into()),
        },
    }
}

fn h(quit: usize) -> Result<(), String> {
    match f3e(quit) {
        Ok(_) => Ok(()),
        Err(err) => match err {
            Enum3::_0(string) => Err(string),
            Enum3::_1(errno) => Err(format!("errno: 0x{:x}", errno)),
            Enum3::_2(flag) => Err(format!("flag: {}", flag)),
        },
    }
}

#[test]
fn test_enum_fn() {
    assert_eq!(f2e(0), Err(Enum2::_0("runtime error".to_string())));
    assert_eq!(f2e(1), Err(Enum2::_1(0xdead)));
    assert_eq!(f2e(2), Ok(()));

    assert_eq!(f3e(0), Err(Enum3::_0("runtime error".to_string())));
    assert_eq!(f3e(1), Err(Enum3::_1(0xdead)));
    assert_eq!(f3e(2), Err(Enum3::_2(false)));
    assert_eq!(f3e(3), Ok(()));

    assert_eq!(g3e(0), Err(Enum3::_2("runtime error".to_string())));
    assert_eq!(g3e(1), Err(Enum3::_0(0xdead)));
    assert_eq!(g3e(2), Err(Enum3::_1(false)));

    assert_eq!(h(0), Err("runtime error".to_string()));
    assert_eq!(h(1), Err("errno: 0xdead".to_string()));
    assert_eq!(h(2), Err("flag: false".to_string()));
    assert_eq!(h(3), Ok(()));
}

fn foo() -> Result<(), Ce1<()>> {
    Err(Ce1::_0(()))
}

fn bar() -> Result<(), Ce1<()>> {
    foo()
}

#[test]
fn print_backtrace() {
    if let Err(err) = bar() {
        println!("{:#?}", err.backtrace);
    }
}

#[test]
fn returns_only_fatal_errors_v4_works() {
    assert_eq!(returns_only_fatal_errors_v4().ok().unwrap(), ());
}

#[test]
fn returns_only_fatal_errors_v5_works() {
    assert_eq!(returns_only_fatal_errors_v5().ok().unwrap(), ());
}
