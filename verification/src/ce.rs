//! Checked error sets carrying a backtrace: `Ce1` .. `Ce3` pair a
//! structural sum type of errors with a list of frames, and take part in
//! the exchange algebra like any other enum of their arity.

use vstd::prelude::*;

use crate::enumx::{Enum1, Enum2, Enum3};
use crate::log::Frame;

verus! {

/// A one-variant error set with a backtrace.
#[derive(Debug, PartialEq, Eq)]
pub struct Ce1<T0> {
    pub error: Enum1<T0>,
    pub backtrace: Vec<Frame>,
}

/// A two-variant error set with a backtrace.
#[derive(Debug, PartialEq, Eq)]
pub struct Ce2<T0, T1> {
    pub error: Enum2<T0, T1>,
    pub backtrace: Vec<Frame>,
}

/// A three-variant error set with a backtrace.
#[derive(Debug, PartialEq, Eq)]
pub struct Ce3<T0, T1, T2> {
    pub error: Enum3<T0, T1, T2>,
    pub backtrace: Vec<Frame>,
}

impl<T0> Ce1<T0> {
    /// The error set holding its only variant, with no frames yet.
    pub fn _0(v: T0) -> (r: Self)
        ensures
            r.error == Enum1::_0(v),
            r.backtrace@.len() == 0,
    {
        Ce1 { error: Enum1::_0(v), backtrace: Vec::new() }
    }

    /// The same error set with one more frame.
    pub fn trace(self, f: Frame) -> (r: Self)
        ensures
            r.error == self.error,
            r.backtrace@ == self.backtrace@.push(f),
    {
        let mut backtrace = self.backtrace;
        backtrace.push(f);
        Ce1 { error: self.error, backtrace }
    }
}

impl<T0, T1> Ce2<T0, T1> {
    /// The error set holding its first variant, with no frames yet.
    pub fn _0(v: T0) -> (r: Self)
        ensures
            r.error == Enum2::<T0, T1>::_0(v),
            r.backtrace@.len() == 0,
    {
        Ce2 { error: Enum2::_0(v), backtrace: Vec::new() }
    }

    /// The error set holding its second variant, with no frames yet.
    pub fn _1(v: T1) -> (r: Self)
        ensures
            r.error == Enum2::<T0, T1>::_1(v),
            r.backtrace@.len() == 0,
    {
        Ce2 { error: Enum2::_1(v), backtrace: Vec::new() }
    }

    /// The same error set with one more frame.
    pub fn trace(self, f: Frame) -> (r: Self)
        ensures
            r.error == self.error,
            r.backtrace@ == self.backtrace@.push(f),
    {
        let mut backtrace = self.backtrace;
        backtrace.push(f);
        Ce2 { error: self.error, backtrace }
    }
}

impl<T0, T1, T2> Ce3<T0, T1, T2> {
    /// The error set holding its first variant, with no frames yet.
    pub fn _0(v: T0) -> (r: Self)
        ensures
            r.error == Enum3::<T0, T1, T2>::_0(v),
            r.backtrace@.len() == 0,
    {
        Ce3 { error: Enum3::_0(v), backtrace: Vec::new() }
    }

    /// The error set holding its second variant, with no frames yet.
    pub fn _1(v: T1) -> (r: Self)
        ensures
            r.error == Enum3::<T0, T1, T2>::_1(v),
            r.backtrace@.len() == 0,
    {
        Ce3 { error: Enum3::_1(v), backtrace: Vec::new() }
    }

    /// The error set holding its third variant, with no frames yet.
    pub fn _2(v: T2) -> (r: Self)
        ensures
            r.error == Enum3::<T0, T1, T2>::_2(v),
            r.backtrace@.len() == 0,
    {
        Ce3 { error: Enum3::_2(v), backtrace: Vec::new() }
    }

    /// The same error set with one more frame.
    pub fn trace(self, f: Frame) -> (r: Self)
        ensures
            r.error == self.error,
            r.backtrace@ == self.backtrace@.push(f),
    {
        let mut backtrace = self.backtrace;
        backtrace.push(f);
        Ce3 { error: self.error, backtrace }
    }
}

} // verus!
