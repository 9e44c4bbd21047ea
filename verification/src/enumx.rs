//! Structural sum types and the exchange algebra.
//!
//! `EnumN<T0, .., TN-1>` is the structural sum type with one positional
//! variant per type argument.  `FromVariant` injects a bare value at a
//! position chosen by an index type (`V0` .. `V3`); `ExchangeFrom` widens a
//! whole sum type into another one whose variant set includes the source's,
//! position by position, with the positions resolved by trait search.  A
//! named enum takes part through `Proto`, an isomorphism with the
//! structural prototype of its arity.

use vstd::prelude::*;

verus! {

/// Index type resolving a variant injection to position 0.
pub struct V0;

/// Index type resolving a variant injection to position 1.
pub struct V1;

/// Index type resolving a variant injection to position 2.
pub struct V2;

/// Index type resolving a variant injection to position 3.
pub struct V3;

/// Index wrapper telling `ExchangeFrom` apart from a bare variant
/// injection: an exchange between two sum types carries one inner index
/// per source variant, as a tuple.
pub struct EnumToEnum<Index>(pub Index);

/// The structural sum type with one variant.
#[derive(Clone, Debug, PartialEq, Eq, PartialOrd, Ord)]
pub enum Enum1<T0> {
    _0(T0),
}

/// The structural sum type with two variants.
#[derive(Clone, Debug, PartialEq, Eq, PartialOrd, Ord)]
pub enum Enum2<T0, T1> {
    _0(T0),
    _1(T1),
}

/// The structural sum type with three variants.
#[derive(Clone, Debug, PartialEq, Eq, PartialOrd, Ord)]
pub enum Enum3<T0, T1, T2> {
    _0(T0),
    _1(T1),
    _2(T2),
}

/// The structural sum type with four variants.
#[derive(Clone, Debug, PartialEq, Eq, PartialOrd, Ord)]
pub enum Enum4<T0, T1, T2, T3> {
    _0(T0),
    _1(T1),
    _2(T2),
    _3(T3),
}

/// Constructs an enum from one of its variants; `Index` selects the
/// position.
pub trait FromVariant<Variant, Index>: Sized {
    /// What `from_variant` returns.
    spec fn spec_from_variant(variant: Variant) -> Self;

    fn from_variant(variant: Variant) -> (r: Self)
        ensures
            r == Self::spec_from_variant(variant),
    ;
}

/// Wraps a variant into an enum; the mirror of `FromVariant`.
pub trait IntoEnum<Enum, Index>: Sized {
    /// What `into_enum` returns.
    spec fn spec_into_enum(self) -> Enum;

    fn into_enum(self) -> (r: Enum)
        ensures
            r == self.spec_into_enum(),
    ;
}

impl<E, V, Index> IntoEnum<E, Index> for V where E: FromVariant<V, Index> {
    open spec fn spec_into_enum(self) -> E {
        E::spec_from_variant(self)
    }

    fn into_enum(self) -> (r: E) {
        E::from_variant(self)
    }
}

/// Constructs an enum from one of its variants, or from an enum whose
/// variant set is included in this one's.
pub trait ExchangeFrom<Src, Index>: Sized {
    /// What `exchange_from` returns.
    spec fn spec_exchange_from(src: Src) -> Self;

    fn exchange_from(src: Src) -> (r: Self)
        ensures
            r == Self::spec_exchange_from(src),
    ;
}

/// Wraps a variant into an enum, or widens an enum into another one; the
/// mirror of `ExchangeFrom`.
pub trait ExchangeInto<Dest, Index>: Sized {
    /// What `exchange_into` returns.
    spec fn spec_exchange_into(self) -> Dest;

    fn exchange_into(self) -> (r: Dest)
        ensures
            r == self.spec_exchange_into(),
    ;
}

impl<Src, Dest, Index> ExchangeInto<Dest, Index> for Src where Dest: ExchangeFrom<Src, Index> {
    open spec fn spec_exchange_into(self) -> Dest {
        Dest::spec_exchange_from(self)
    }

    fn exchange_into(self) -> (r: Dest) {
        Dest::exchange_from(self)
    }
}

/// The structural prototype of an enum: a named enum is exchanged by first
/// mapping it onto the prototype of its arity.
pub trait Proto: Sized {
    type Type;

    /// What `from_proto` returns.
    spec fn spec_from_proto(src: Self::Type) -> Self;

    /// What `into_proto` returns.
    spec fn spec_into_proto(self) -> Self::Type;

    fn from_proto(src: Self::Type) -> (r: Self)
        ensures
            r == Self::spec_from_proto(src),
    ;

    fn into_proto(self) -> (r: Self::Type)
        ensures
            r == self.spec_into_proto(),
    ;
}

} // verus!

pub mod proto;

mod impls;

pub use impls::{
    lemma_exchange_self_enum2, lemma_exchange_self_enum3, lemma_proto_round_trip_enum1,
    lemma_proto_round_trip_enum2, lemma_proto_round_trip_enum3, lemma_proto_round_trip_enum4,
};
