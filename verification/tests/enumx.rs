use cex::bridge::{One, Three, Two};
use cex::enumx::{Enum1, Enum2, Enum3, ExchangeFrom, ExchangeInto, FromVariant, IntoEnum};

#[test]
fn lib_test_from_variant() {
    let enum1 = Enum1::<i32>::from_variant(2018);
    assert_eq!(enum1, Enum1::_0(2018));

    let enum2 = Enum2::<i32, String>::from_variant("rust".to_string());
    assert_eq!(enum2, Enum2::_1("rust".to_string()));

    let enum3 = Enum3::<i32, String, bool>::from_variant(true);
    assert_eq!(enum3, Enum3::_2(true));
}

#[test]
fn lib_test_into_enum() {
    let enum1: Enum1<i32> = 2018.exchange_into();
    assert_eq!(enum1, Enum1::_0(2018));

    let enum2: Enum2<i32, String> = "rust".to_string().exchange_into();
    assert_eq!(enum2, Enum2::_1("rust".to_string()));

    let enum3: Enum3<i32, String, bool> = true.exchange_into();
    assert_eq!(enum3, Enum3::_2(true));
}

#[test]
fn lib_test_exchange_from() {
    let enum1 = Enum1::<String>::exchange_from("rust".to_string());

    let enum1 = Enum1::<String>::exchange_from(enum1);
    assert_eq!(enum1, Enum1::_0("rust".to_string()));

    let enum2 = Enum2::<i32, String>::exchange_from(enum1);
    assert_eq!(enum2, Enum2::_1("rust".to_string()));

    let enum2 = Enum2::<String, i32>::exchange_from(enum2);
    assert_eq!(enum2, Enum2::_0("rust".to_string()));

    let enum3 = Enum3::<bool, i32, String>::exchange_from(enum2);
    assert_eq!(enum3, Enum3::_2("rust".to_string()));

    let enum3 = Enum3::<String, i32, bool>::exchange_from(enum3);
    assert_eq!(enum3, Enum3::_0("rust".to_string()));
}

#[test]
fn lib_test_exchange_into() {
    let enum1 = Enum1::<i32>::exchange_from(2018);

    let enum1: Enum1<i32> = enum1.exchange_into();
    assert_eq!(enum1, Enum1::_0(2018));

    let enum2: Enum2<String, i32> = enum1.exchange_into();
    assert_eq!(enum2, Enum2::_1(2018));

    let enum2: Enum2<i32, String> = enum2.exchange_into();
    assert_eq!(enum2, Enum2::_0(2018));

    let enum3: Enum3<bool, String, i32> = enum2.exchange_into();
    assert_eq!(enum3, Enum3::_2(2018));

    let enum3: Enum3<i32, String, bool> = enum3.exchange_into();
    assert_eq!(enum3, Enum3::_0(2018));
}

#[test]
fn lib_named_test_from_variant() {
    let one = One::<i32>::from_variant(2018);
    assert_eq!(one, One::The(2018));

    let two = Two::<i32, String>::from_variant("rust".to_string());
    assert_eq!(two, Two::Latter("rust".to_string()));

    let three = Three::<i32, String, bool>::from_variant(true);
    assert_eq!(three, Three::Third(true));
}

#[test]
fn lib_named_test_into_enum() {
    let one: One<i32> = 2018.into_enum();
    assert_eq!(one, One::The(2018));

    let two: Two<i32, String> = "rust".to_string().into_enum();
    assert_eq!(two, Two::Latter("rust".to_string()));

    let three: Three<i32, String, bool> = true.into_enum();
    assert_eq!(three, Three::Third(true));
}

#[test]
fn lib_named_test_exchange_from() {
    let one = One::<i32>::exchange_from(2018);
    let enum1 = Enum1::<i32>::exchange_from(one);
    let one = One::<i32>::exchange_from(enum1);

    let one = One::<i32>::exchange_from(one);
    assert_eq!(one, One::The(2018));

    let two = Two::<String, i32>::exchange_from(one);
    assert_eq!(two, Two::Latter(2018));

    let two = Two::<i32, String>::exchange_from(two);
    assert_eq!(two, Two::Former(2018));

    let three = Three::<bool, String, i32>::exchange_from(two);
    assert_eq!(three, Three::Third(2018));

    let three = Three::<i32, String, bool>::exchange_from(three);
    assert_eq!(three, Three::First(2018));
}

#[test]
fn lib_named_test_exchange_into() {
    let one = One::<String>::exchange_from("rust".to_string());

    let one: One<String> = one.exchange_into();
    assert_eq!(one, One::The("rust".to_string()));

    let two: Two<i32, String> = one.exchange_into();
    assert_eq!(two, Two::Latter("rust".to_string()));

    let two: Two<String, i32> = two.exchange_into();
    assert_eq!(two, Two::Former("rust".to_string()));

    let three: Three<bool, i32, String> = two.exchange_into();
    assert_eq!(three, Three::Third("rust".to_string()));

    let three: Three<String, i32, bool> = three.exchange_into();
    assert_eq!(three, Three::First("rust".to_string()));
}

#[test]
fn test_adhoc_from_named() {
    let three = Three::<bool, String, i32>::exchange_from(2018);
    let enum3 = Enum3::<String, i32, bool>::exchange_from(three);
    assert_eq!(enum3, Enum3::_1(2018));
}

#[test]
fn test_adhoc_into_named() {
    let enum3 = Enum3::<String, i32, bool>::exchange_from(2018);
    let three: Three<bool, String, i32> = enum3.exchange_into();
    assert_eq!(three, Three::Third(2018));
}

#[test]
fn test_named_into_adhoc() {
    let three = Three::<bool, String, i32>::exchange_from(2018);
    let enum3: Enum3<String, i32, bool> = three.exchange_into();
    assert_eq!(enum3, Enum3::_1(2018));
}

#[test]
fn test_named_from_adhoc() {
    let enum3 = Enum3::<String, i32, bool>::exchange_from(2018);
    let three = Three::<bool, String, i32>::exchange_from(enum3);
    assert_eq!(three, Three::Third(2018));
}

fn f2(variant_index: usize) -> Enum2<String, i32> {
    match variant_index {
        0 => "runtime error".to_string().into_enum(),
        1 => 0xdead.into_enum(),
        _ => panic!("variant index out of bounds"),
    }
}

fn f3(variant_index: usize) -> Enum3<String, i32, bool> {
    match variant_index {
        0 | 1 => f2(variant_index).exchange_into(),
        2 => false.into_enum(),
        _ => panic!("variant index out of bounds"),
    }
}

fn g3(variant_index: usize) -> Enum3<i32, bool, String> {
    match variant_index {
        0 | 1 => f2(variant_index).exchange_into(),
        _ => f3(variant_index).exchange_into(),
    }
}

fn h(variant_index: usize) -> String {
    match f3(variant_index) {
        Enum3::_0(string) => string,
        Enum3::_1(errno) => format!("errno: 0x{:x}", errno),
        Enum3::_2(flag) => format!("flag: {}", flag),
    }
}

#[test]
fn test_enumx_fn() {
    assert_eq!(f2(0), Enum2::_0("runtime error".to_string()));
    assert_eq!(f2(1), Enum2::_1(0xdead));

    assert_eq!(f3(0), Enum3::_0("runtime error".to_string()));
    assert_eq!(f3(1), Enum3::_1(0xdead));
    assert_eq!(f3(2), Enum3::_2(false));

    assert_eq!(g3(0), Enum3::_2("runtime error".to_string()));
    assert_eq!(g3(1), Enum3::_0(0xdead));
    assert_eq!(g3(2), Enum3::_1(false));

    assert_eq!(h(0), "runtime error".to_string());
    assert_eq!(h(1), "errno: 0xdead".to_string());
    assert_eq!(h(2), "flag: false".to_string());
}
