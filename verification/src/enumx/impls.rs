//! Trait implementations tying the structural sum types, their
//! prototypes, and the exchange algebra together.

use vstd::prelude::*;

use super::proto::{Proto1, Proto2, Proto3, Proto4};
use super::{
    Enum1, Enum2, Enum3, Enum4, EnumToEnum, ExchangeFrom, FromVariant, Proto, V0, V1, V2, V3,
};

verus! {

// Variant injections: one impl per enum position.

impl<T0> FromVariant<T0, V0> for Enum1<T0> {
    open spec fn spec_from_variant(variant: T0) -> Self {
        Enum1::_0(variant)
    }

    fn from_variant(variant: T0) -> (r: Self) {
        Enum1::_0(variant)
    }
}

impl<T0, T1> FromVariant<T0, V0> for Enum2<T0, T1> {
    open spec fn spec_from_variant(variant: T0) -> Self {
        Enum2::_0(variant)
    }

    fn from_variant(variant: T0) -> (r: Self) {
        Enum2::_0(variant)
    }
}

impl<T0, T1> FromVariant<T1, V1> for Enum2<T0, T1> {
    open spec fn spec_from_variant(variant: T1) -> Self {
        Enum2::_1(variant)
    }

    fn from_variant(variant: T1) -> (r: Self) {
        Enum2::_1(variant)
    }
}

impl<T0, T1, T2> FromVariant<T0, V0> for Enum3<T0, T1, T2> {
    open spec fn spec_from_variant(variant: T0) -> Self {
        Enum3::_0(variant)
    }

    fn from_variant(variant: T0) -> (r: Self) {
        Enum3::_0(variant)
    }
}

impl<T0, T1, T2> FromVariant<T1, V1> for Enum3<T0, T1, T2> {
    open spec fn spec_from_variant(variant: T1) -> Self {
        Enum3::_1(variant)
    }

    fn from_variant(variant: T1) -> (r: Self) {
        Enum3::_1(variant)
    }
}

impl<T0, T1, T2> FromVariant<T2, V2> for Enum3<T0, T1, T2> {
    open spec fn spec_from_variant(variant: T2) -> Self {
        Enum3::_2(variant)
    }

    fn from_variant(variant: T2) -> (r: Self) {
        Enum3::_2(variant)
    }
}

impl<T0, T1, T2, T3> FromVariant<T0, V0> for Enum4<T0, T1, T2, T3> {
    open spec fn spec_from_variant(variant: T0) -> Self {
        Enum4::_0(variant)
    }

    fn from_variant(variant: T0) -> (r: Self) {
        Enum4::_0(variant)
    }
}

impl<T0, T1, T2, T3> FromVariant<T1, V1> for Enum4<T0, T1, T2, T3> {
    open spec fn spec_from_variant(variant: T1) -> Self {
        Enum4::_1(variant)
    }

    fn from_variant(variant: T1) -> (r: Self) {
        Enum4::_1(variant)
    }
}

impl<T0, T1, T2, T3> FromVariant<T2, V2> for Enum4<T0, T1, T2, T3> {
    open spec fn spec_from_variant(variant: T2) -> Self {
        Enum4::_2(variant)
    }

    fn from_variant(variant: T2) -> (r: Self) {
        Enum4::_2(variant)
    }
}

impl<T0, T1, T2, T3> FromVariant<T3, V3> for Enum4<T0, T1, T2, T3> {
    open spec fn spec_from_variant(variant: T3) -> Self {
        Enum4::_3(variant)
    }

    fn from_variant(variant: T3) -> (r: Self) {
        Enum4::_3(variant)
    }
}

// A bare variant exchanges into an enum by plain injection: one impl per
// index type, so that the inner index stays free for trait search.

impl<E, V> ExchangeFrom<V, V0> for E where E: FromVariant<V, V0> {
    open spec fn spec_exchange_from(src: V) -> Self {
        E::spec_from_variant(src)
    }

    fn exchange_from(src: V) -> (r: Self) {
        E::from_variant(src)
    }
}

impl<E, V> ExchangeFrom<V, V1> for E where E: FromVariant<V, V1> {
    open spec fn spec_exchange_from(src: V) -> Self {
        E::spec_from_variant(src)
    }

    fn exchange_from(src: V) -> (r: Self) {
        E::from_variant(src)
    }
}

impl<E, V> ExchangeFrom<V, V2> for E where E: FromVariant<V, V2> {
    open spec fn spec_exchange_from(src: V) -> Self {
        E::spec_from_variant(src)
    }

    fn exchange_from(src: V) -> (r: Self) {
        E::from_variant(src)
    }
}

impl<E, V> ExchangeFrom<V, V3> for E where E: FromVariant<V, V3> {
    open spec fn spec_exchange_from(src: V) -> Self {
        E::spec_from_variant(src)
    }

    fn exchange_from(src: V) -> (r: Self) {
        E::from_variant(src)
    }
}

// Each structural sum type is isomorphic to the prototype of its arity.

impl<T0> Proto for Enum1<T0> {
    type Type = Proto1<T0>;

    open spec fn spec_from_proto(src: Proto1<T0>) -> Self {
        match src {
            Proto1::_0(v) => Enum1::_0(v),
        }
    }

    open spec fn spec_into_proto(self) -> Proto1<T0> {
        match self {
            Enum1::_0(v) => Proto1::_0(v),
        }
    }

    fn from_proto(src: Proto1<T0>) -> (r: Self) {
        match src {
            Proto1::_0(v) => Enum1::_0(v),
        }
    }

    fn into_proto(self) -> (r: Proto1<T0>) {
        match self {
            Enum1::_0(v) => Proto1::_0(v),
        }
    }
}

impl<T0, T1> Proto for Enum2<T0, T1> {
    type Type = Proto2<T0, T1>;

    open spec fn spec_from_proto(src: Proto2<T0, T1>) -> Self {
        match src {
            Proto2::_0(v) => Enum2::_0(v),
            Proto2::_1(v) => Enum2::_1(v),
        }
    }

    open spec fn spec_into_proto(self) -> Proto2<T0, T1> {
        match self {
            Enum2::_0(v) => Proto2::_0(v),
            Enum2::_1(v) => Proto2::_1(v),
        }
    }

    fn from_proto(src: Proto2<T0, T1>) -> (r: Self) {
        match src {
            Proto2::_0(v) => Enum2::_0(v),
            Proto2::_1(v) => Enum2::_1(v),
        }
    }

    fn into_proto(self) -> (r: Proto2<T0, T1>) {
        match self {
            Enum2::_0(v) => Proto2::_0(v),
            Enum2::_1(v) => Proto2::_1(v),
        }
    }
}

impl<T0, T1, T2> Proto for Enum3<T0, T1, T2> {
    type Type = Proto3<T0, T1, T2>;

    open spec fn spec_from_proto(src: Proto3<T0, T1, T2>) -> Self {
        match src {
            Proto3::_0(v) => Enum3::_0(v),
            Proto3::_1(v) => Enum3::_1(v),
            Proto3::_2(v) => Enum3::_2(v),
        }
    }

    open spec fn spec_into_proto(self) -> Proto3<T0, T1, T2> {
        match self {
            Enum3::_0(v) => Proto3::_0(v),
            Enum3::_1(v) => Proto3::_1(v),
            Enum3::_2(v) => Proto3::_2(v),
        }
    }

    fn from_proto(src: Proto3<T0, T1, T2>) -> (r: Self) {
        match src {
            Proto3::_0(v) => Enum3::_0(v),
            Proto3::_1(v) => Enum3::_1(v),
            Proto3::_2(v) => Enum3::_2(v),
        }
    }

    fn into_proto(self) -> (r: Proto3<T0, T1, T2>) {
        match self {
            Enum3::_0(v) => Proto3::_0(v),
            Enum3::_1(v) => Proto3::_1(v),
            Enum3::_2(v) => Proto3::_2(v),
        }
    }
}

impl<T0, T1, T2, T3> Proto for Enum4<T0, T1, T2, T3> {
    type Type = Proto4<T0, T1, T2, T3>;

    open spec fn spec_from_proto(src: Proto4<T0, T1, T2, T3>) -> Self {
        match src {
            Proto4::_0(v) => Enum4::_0(v),
            Proto4::_1(v) => Enum4::_1(v),
            Proto4::_2(v) => Enum4::_2(v),
            Proto4::_3(v) => Enum4::_3(v),
        }
    }

    open spec fn spec_into_proto(self) -> Proto4<T0, T1, T2, T3> {
        match self {
            Enum4::_0(v) => Proto4::_0(v),
            Enum4::_1(v) => Proto4::_1(v),
            Enum4::_2(v) => Proto4::_2(v),
            Enum4::_3(v) => Proto4::_3(v),
        }
    }

    fn from_proto(src: Proto4<T0, T1, T2, T3>) -> (r: Self) {
        match src {
            Proto4::_0(v) => Enum4::_0(v),
            Proto4::_1(v) => Enum4::_1(v),
            Proto4::_2(v) => Enum4::_2(v),
            Proto4::_3(v) => Enum4::_3(v),
        }
    }

    fn into_proto(self) -> (r: Proto4<T0, T1, T2, T3>) {
        match self {
            Enum4::_0(v) => Proto4::_0(v),
            Enum4::_1(v) => Proto4::_1(v),
            Enum4::_2(v) => Proto4::_2(v),
            Enum4::_3(v) => Proto4::_3(v),
        }
    }
}

// Enum-to-enum exchange: the source is mapped onto its prototype, and
// each prototype variant is exchanged into the destination under its own
// inner index, resolved by trait search.  One impl per source arity.

impl<I0, T0, Src, Dest> ExchangeFrom<Src, EnumToEnum<(I0,)>> for Dest where
    Src: Proto<Type = Proto1<T0>>,
    Dest: ExchangeFrom<T0, I0>,
 {
    open spec fn spec_exchange_from(src: Src) -> Self {
        match src.spec_into_proto() {
            Proto1::_0(v) => <Dest as ExchangeFrom<T0, I0>>::spec_exchange_from(v),
        }
    }

    fn exchange_from(src: Src) -> (r: Self) {
        match src.into_proto() {
            Proto1::_0(v) => <Dest as ExchangeFrom<T0, I0>>::exchange_from(v),
        }
    }
}

impl<I0, I1, T0, T1, Src, Dest> ExchangeFrom<Src, EnumToEnum<(I0, I1)>> for Dest where
    Src: Proto<Type = Proto2<T0, T1>>,
    Dest: ExchangeFrom<T0, I0> + ExchangeFrom<T1, I1>,
 {
    open spec fn spec_exchange_from(src: Src) -> Self {
        match src.spec_into_proto() {
            Proto2::_0(v) => <Dest as ExchangeFrom<T0, I0>>::spec_exchange_from(v),
            Proto2::_1(v) => <Dest as ExchangeFrom<T1, I1>>::spec_exchange_from(v),
        }
    }

    fn exchange_from(src: Src) -> (r: Self) {
        match src.into_proto() {
            Proto2::_0(v) => <Dest as ExchangeFrom<T0, I0>>::exchange_from(v),
            Proto2::_1(v) => <Dest as ExchangeFrom<T1, I1>>::exchange_from(v),
        }
    }
}

impl<I0, I1, I2, T0, T1, T2, Src, Dest> ExchangeFrom<Src, EnumToEnum<(I0, I1, I2)>> for Dest where
    Src: Proto<Type = Proto3<T0, T1, T2>>,
    Dest: ExchangeFrom<T0, I0> + ExchangeFrom<T1, I1> + ExchangeFrom<T2, I2>,
 {
    open spec fn spec_exchange_from(src: Src) -> Self {
        match src.spec_into_proto() {
            Proto3::_0(v) => <Dest as ExchangeFrom<T0, I0>>::spec_exchange_from(v),
            Proto3::_1(v) => <Dest as ExchangeFrom<T1, I1>>::spec_exchange_from(v),
            Proto3::_2(v) => <Dest as ExchangeFrom<T2, I2>>::spec_exchange_from(v),
        }
    }

    fn exchange_from(src: Src) -> (r: Self) {
        match src.into_proto() {
            Proto3::_0(v) => <Dest as ExchangeFrom<T0, I0>>::exchange_from(v),
            Proto3::_1(v) => <Dest as ExchangeFrom<T1, I1>>::exchange_from(v),
            Proto3::_2(v) => <Dest as ExchangeFrom<T2, I2>>::exchange_from(v),
        }
    }
}

impl<I0, I1, I2, I3, T0, T1, T2, T3, Src, Dest> ExchangeFrom<
    Src,
    EnumToEnum<(I0, I1, I2, I3)>,
> for Dest where
    Src: Proto<Type = Proto4<T0, T1, T2, T3>>,
    Dest: ExchangeFrom<T0, I0> + ExchangeFrom<T1, I1> + ExchangeFrom<T2, I2> + ExchangeFrom<T3, I3>,
 {
    open spec fn spec_exchange_from(src: Src) -> Self {
        match src.spec_into_proto() {
            Proto4::_0(v) => <Dest as ExchangeFrom<T0, I0>>::spec_exchange_from(v),
            Proto4::_1(v) => <Dest as ExchangeFrom<T1, I1>>::spec_exchange_from(v),
            Proto4::_2(v) => <Dest as ExchangeFrom<T2, I2>>::spec_exchange_from(v),
            Proto4::_3(v) => <Dest as ExchangeFrom<T3, I3>>::spec_exchange_from(v),
        }
    }

    fn exchange_from(src: Src) -> (r: Self) {
        match src.into_proto() {
            Proto4::_0(v) => <Dest as ExchangeFrom<T0, I0>>::exchange_from(v),
            Proto4::_1(v) => <Dest as ExchangeFrom<T1, I1>>::exchange_from(v),
            Proto4::_2(v) => <Dest as ExchangeFrom<T2, I2>>::exchange_from(v),
            Proto4::_3(v) => <Dest as ExchangeFrom<T3, I3>>::exchange_from(v),
        }
    }
}

// The laws of the bridge: mapping onto the prototype and back is the
// identity, in both directions, at every arity.

/// A sum type of arity one comes back unchanged from its prototype.
pub proof fn lemma_proto_round_trip_enum1<T0>(e: Enum1<T0>, p: Proto1<T0>)
    ensures
        Enum1::<T0>::spec_from_proto(e.spec_into_proto()) == e,
        Enum1::<T0>::spec_from_proto(p).spec_into_proto() == p,
{
}

/// A sum type of arity two comes back unchanged from its prototype.
pub proof fn lemma_proto_round_trip_enum2<T0, T1>(e: Enum2<T0, T1>, p: Proto2<T0, T1>)
    ensures
        Enum2::<T0, T1>::spec_from_proto(e.spec_into_proto()) == e,
        Enum2::<T0, T1>::spec_from_proto(p).spec_into_proto() == p,
{
}

/// A sum type of arity three comes back unchanged from its prototype.
pub proof fn lemma_proto_round_trip_enum3<T0, T1, T2>(e: Enum3<T0, T1, T2>, p: Proto3<T0, T1, T2>)
    ensures
        Enum3::<T0, T1, T2>::spec_from_proto(e.spec_into_proto()) == e,
        Enum3::<T0, T1, T2>::spec_from_proto(p).spec_into_proto() == p,
{
}

/// A sum type of arity four comes back unchanged from its prototype.
pub proof fn lemma_proto_round_trip_enum4<T0, T1, T2, T3>(
    e: Enum4<T0, T1, T2, T3>,
    p: Proto4<T0, T1, T2, T3>,
)
    ensures
        Enum4::<T0, T1, T2, T3>::spec_from_proto(e.spec_into_proto()) == e,
        Enum4::<T0, T1, T2, T3>::spec_from_proto(p).spec_into_proto() == p,
{
}

/// Exchanging a sum type into itself, each variant landing on its own
/// position, is the identity.
pub proof fn lemma_exchange_self_enum2<T0, T1>(e: Enum2<T0, T1>)
    ensures
        <Enum2<T0, T1> as ExchangeFrom<Enum2<T0, T1>, EnumToEnum<(V0, V1)>>>::spec_exchange_from(
            e,
        ) == e,
{
    match e {
        Enum2::_0(v) => {
            assert(e.spec_into_proto() == Proto2::<T0, T1>::_0(v));
        },
        Enum2::_1(v) => {
            assert(e.spec_into_proto() == Proto2::<T0, T1>::_1(v));
        },
    }
}

/// Exchanging a sum type into itself, each variant landing on its own
/// position, is the identity.
pub proof fn lemma_exchange_self_enum3<T0, T1, T2>(e: Enum3<T0, T1, T2>)
    ensures
        <Enum3<T0, T1, T2> as ExchangeFrom<
            Enum3<T0, T1, T2>,
            EnumToEnum<(V0, V1, V2)>,
        >>::spec_exchange_from(e) == e,
{
    match e {
        Enum3::_0(v) => {
            assert(e.spec_into_proto() == Proto3::<T0, T1, T2>::_0(v));
        },
        Enum3::_1(v) => {
            assert(e.spec_into_proto() == Proto3::<T0, T1, T2>::_1(v));
        },
        Enum3::_2(v) => {
            assert(e.spec_into_proto() == Proto3::<T0, T1, T2>::_2(v));
        },
    }
}

} // verus!
