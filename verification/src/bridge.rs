//! Named enums taking part in the exchange algebra.
//!
//! A named enum joins the algebra by implementing `FromVariant` once per
//! position and `Proto` once, declaring its isomorphism with the
//! structural prototype of its arity.  `One`, `Two` and `Three` are the
//! worked examples: generic named enums of arity one to three whose
//! variants carry one payload each.

use vstd::prelude::*;

use crate::enumx::proto::{Proto1, Proto2, Proto3};
use crate::enumx::{FromVariant, Proto, V0, V1, V2};

verus! {

/// A named enum of one variant.
#[derive(Clone, Debug, PartialEq, Eq, PartialOrd, Ord)]
pub enum One<T> {
    The(T),
}

/// A named enum of two variants.
#[derive(Clone, Debug, PartialEq, Eq, PartialOrd, Ord)]
pub enum Two<A, B> {
    Former(A),
    Latter(B),
}

/// A named enum of three variants.
#[derive(Clone, Debug, PartialEq, Eq, PartialOrd, Ord)]
pub enum Three<A, B, C> {
    First(A),
    Second(B),
    Third(C),
}

impl<T> FromVariant<T, V0> for One<T> {
    open spec fn spec_from_variant(variant: T) -> Self {
        One::The(variant)
    }

    fn from_variant(variant: T) -> (r: Self) {
        One::The(variant)
    }
}

impl<T> Proto for One<T> {
    type Type = Proto1<T>;

    open spec fn spec_from_proto(src: Proto1<T>) -> Self {
        match src {
            Proto1::_0(v) => One::The(v),
        }
    }

    open spec fn spec_into_proto(self) -> Proto1<T> {
        match self {
            One::The(v) => Proto1::_0(v),
        }
    }

    fn from_proto(src: Proto1<T>) -> (r: Self) {
        match src {
            Proto1::_0(v) => One::The(v),
        }
    }

    fn into_proto(self) -> (r: Proto1<T>) {
        match self {
            One::The(v) => Proto1::_0(v),
        }
    }
}

impl<A, B> FromVariant<A, V0> for Two<A, B> {
    open spec fn spec_from_variant(variant: A) -> Self {
        Two::Former(variant)
    }

    fn from_variant(variant: A) -> (r: Self) {
        Two::Former(variant)
    }
}

impl<A, B> FromVariant<B, V1> for Two<A, B> {
    open spec fn spec_from_variant(variant: B) -> Self {
        Two::Latter(variant)
    }

    fn from_variant(variant: B) -> (r: Self) {
        Two::Latter(variant)
    }
}

impl<A, B> Proto for Two<A, B> {
    type Type = Proto2<A, B>;

    open spec fn spec_from_proto(src: Proto2<A, B>) -> Self {
        match src {
            Proto2::_0(v) => Two::Former(v),
            Proto2::_1(v) => Two::Latter(v),
        }
    }

    open spec fn spec_into_proto(self) -> Proto2<A, B> {
        match self {
            Two::Former(v) => Proto2::_0(v),
            Two::Latter(v) => Proto2::_1(v),
        }
    }

    fn from_proto(src: Proto2<A, B>) -> (r: Self) {
        match src {
            Proto2::_0(v) => Two::Former(v),
            Proto2::_1(v) => Two::Latter(v),
        }
    }

    fn into_proto(self) -> (r: Proto2<A, B>) {
        match self {
            Two::Former(v) => Proto2::_0(v),
            Two::Latter(v) => Proto2::_1(v),
        }
    }
}

impl<A, B, C> FromVariant<A, V0> for Three<A, B, C> {
    open spec fn spec_from_variant(variant: A) -> Self {
        Three::First(variant)
    }

    fn from_variant(variant: A) -> (r: Self) {
        Three::First(variant)
    }
}

impl<A, B, C> FromVariant<B, V1> for Three<A, B, C> {
    open spec fn spec_from_variant(variant: B) -> Self {
        Three::Second(variant)
    }

    fn from_variant(variant: B) -> (r: Self) {
        Three::Second(variant)
    }
}

impl<A, B, C> FromVariant<C, V2> for Three<A, B, C> {
    open spec fn spec_from_variant(variant: C) -> Self {
        Three::Third(variant)
    }

    fn from_variant(variant: C) -> (r: Self) {
        Three::Third(variant)
    }
}

impl<A, B, C> Proto for Three<A, B, C> {
    type Type = Proto3<A, B, C>;

    open spec fn spec_from_proto(src: Proto3<A, B, C>) -> Self {
        match src {
            Proto3::_0(v) => Three::First(v),
            Proto3::_1(v) => Three::Second(v),
            Proto3::_2(v) => Three::Third(v),
        }
    }

    open spec fn spec_into_proto(self) -> Proto3<A, B, C> {
        match self {
            Three::First(v) => Proto3::_0(v),
            Three::Second(v) => Proto3::_1(v),
            Three::Third(v) => Proto3::_2(v),
        }
    }

    fn from_proto(src: Proto3<A, B, C>) -> (r: Self) {
        match src {
            Proto3::_0(v) => Three::First(v),
            Proto3::_1(v) => Three::Second(v),
            Proto3::_2(v) => Three::Third(v),
        }
    }

    fn into_proto(self) -> (r: Proto3<A, B, C>) {
        match self {
            Three::First(v) => Proto3::_0(v),
            Three::Second(v) => Proto3::_1(v),
            Three::Third(v) => Proto3::_2(v),
        }
    }
}

} // verus!
