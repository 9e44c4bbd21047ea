//! Structural prototypes, one per arity.
//!
//! A named enum with N variants is isomorphic to the prototype of its
//! arity over its variant types; the exchange between two sum types goes
//! through the source's prototype, peeling one variant at a time.

use vstd::prelude::*;

verus! {

/// Prototype of the one-variant enums.
pub enum Proto1<T0> {
    _0(T0),
}

/// Prototype of the two-variant enums.
pub enum Proto2<T0, T1> {
    _0(T0),
    _1(T1),
}

/// Prototype of the three-variant enums.
pub enum Proto3<T0, T1, T2> {
    _0(T0),
    _1(T1),
    _2(T2),
}

/// Prototype of the four-variant enums.
pub enum Proto4<T0, T1, T2, T3> {
    _0(T0),
    _1(T1),
    _2(T2),
    _3(T3),
}

} // verus!
