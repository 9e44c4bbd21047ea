//! Provenance for propagated errors.
//!
//! A `Log` pairs an error with an agent that accumulates log items — most
//! often `Frame`s recording where the error passed.  What accumulation
//! means is the agent's business: a `Vec` keeps every item, a `String`
//! keeps a line per item, `PhantomData` keeps nothing, and `Env` keeps
//! nothing unless tracing has been switched on from outside the program.

use std::marker::PhantomData;
use vstd::prelude::*;
use vstd::string::StringExecFns;

use crate::enumx::{Enum1, Enum2, Enum3, Enum4};

verus! {

/// An accumulator of log items.
///
/// The three spec predicates say what each operation leaves behind;
/// each agent gives them its own meaning.
pub trait LogAgent: Sized {
    type Item;

    /// Holds of an agent as `new` makes it.
    spec fn is_new(r: Self) -> bool;

    /// Holds of an agent as `create_log` makes it from one item.
    spec fn is_create(item: Self::Item, r: Self) -> bool;

    /// Relates an agent before and after `append_log` of one item.
    spec fn is_append(pre: Self, item: Self::Item, post: Self) -> bool;

    fn new() -> (r: Self)
        ensures
            Self::is_new(r),
    ;

    fn create_log(item: Self::Item) -> (r: Self)
        ensures
            Self::is_create(item, r),
    ;

    fn append_log(&mut self, item: Self::Item)
        ensures
            Self::is_append(*old(self), item, *final(self)),
    ;
}

impl<T> LogAgent for Vec<T> {
    type Item = T;

    open spec fn is_new(r: Self) -> bool {
        r@ == Seq::<T>::empty()
    }

    open spec fn is_create(item: T, r: Self) -> bool {
        r@ == seq![item]
    }

    open spec fn is_append(pre: Self, item: T, post: Self) -> bool {
        post@ == pre@.push(item)
    }

    fn new() -> (r: Self) {
        Vec::new()
    }

    fn create_log(item: T) -> (r: Self) {
        let mut r: Vec<T> = Vec::new();
        r.push(item);
        proof {
            assert(r@ =~= seq![item]);
        }
        r
    }

    fn append_log(&mut self, item: T) {
        self.push(item);
    }
}

impl<T> LogAgent for PhantomData<T> {
    type Item = T;

    open spec fn is_new(r: Self) -> bool {
        true
    }

    open spec fn is_create(item: T, r: Self) -> bool {
        true
    }

    open spec fn is_append(pre: Self, item: T, post: Self) -> bool {
        true
    }

    fn new() -> (r: Self) {
        PhantomData
    }

    fn create_log(_item: T) -> (r: Self) {
        PhantomData
    }

    fn append_log(&mut self, _item: T) {
    }
}

/// The character that separates the lines a `String` agent accumulates.
pub open spec fn log_separator() -> Seq<char> {
    seq!['\n']
}

impl LogAgent for String {
    type Item = String;

    open spec fn is_new(r: Self) -> bool {
        r@ == Seq::<char>::empty()
    }

    open spec fn is_create(item: String, r: Self) -> bool {
        r@ == item@
    }

    open spec fn is_append(pre: Self, item: String, post: Self) -> bool {
        post@ == pre@ + log_separator() + item@
    }

    fn new() -> (r: Self) {
        String::new()
    }

    fn create_log(item: String) -> (r: Self) {
        item
    }

    fn append_log(&mut self, item: String) {
        proof {
            reveal_strlit("\n");
        }
        self.append("\n");
        self.append(item.as_str());
        proof {
            assert(self@ =~= old(self)@ + log_separator() + item@);
        }
    }
}

/// An error together with the log its agent has accumulated.
#[derive(Debug, PartialEq, Eq)]
pub struct Log<Inner, Agent: LogAgent = Vec<Frame>> {
    pub error: Inner,
    pub agent: Agent,
}

/// A log that keeps nothing: opting out of provenance at compile time.
pub type NoLog<Inner, Item = Frame> = Log<Inner, PhantomData<Item>>;

/// Wraps a value into a `Log`.
pub trait ToLog<Agent: LogAgent>: Sized {
    fn new_log(self) -> (r: Log<Self, Agent>)
        ensures
            r.error == self,
            Agent::is_new(r.agent),
    ;

    fn to_log(self, item: Agent::Item) -> (r: Log<Self, Agent>)
        ensures
            r.error == self,
            Agent::is_create(item, r.agent),
    ;
}

impl<Inner, Agent: LogAgent> ToLog<Agent> for Inner {
    fn new_log(self) -> (r: Log<Self, Agent>) {
        Log { error: self, agent: Agent::new() }
    }

    fn to_log(self, item: Agent::Item) -> (r: Log<Self, Agent>) {
        Log { error: self, agent: Agent::create_log(item) }
    }
}

/// Appends one log item; a sum type of logged variants appends it to
/// whichever variant it holds.
pub trait Logger<Agent: LogAgent>: Sized {
    /// Relates the value before and after `log`.
    spec fn logged(self, item: Agent::Item, r: Self) -> bool;

    fn log(self, item: Agent::Item) -> (r: Self)
        ensures
            self.logged(item, r),
    ;
}

impl<E, Agent: LogAgent> Logger<Agent> for Log<E, Agent> {
    open spec fn logged(self, item: Agent::Item, r: Self) -> bool {
        r.error == self.error && Agent::is_append(self.agent, item, r.agent)
    }

    fn log(self, item: Agent::Item) -> (r: Self) {
        let mut log = self;
        log.agent.append_log(item);
        log
    }
}

impl<Agent: LogAgent, T0> Logger<Agent> for Enum1<T0> where T0: Logger<Agent> {
    open spec fn logged(self, item: Agent::Item, r: Self) -> bool {
        match (self, r) {
            (Enum1::_0(v), Enum1::_0(w)) => v.logged(item, w),
        }
    }

    fn log(self, item: Agent::Item) -> (r: Self) {
        match self {
            Enum1::_0(v) => Enum1::_0(v.log(item)),
        }
    }
}

impl<Agent: LogAgent, T0, T1> Logger<Agent> for Enum2<T0, T1> where
    T0: Logger<Agent>,
    T1: Logger<Agent>,
 {
    open spec fn logged(self, item: Agent::Item, r: Self) -> bool {
        match (self, r) {
            (Enum2::_0(v), Enum2::_0(w)) => v.logged(item, w),
            (Enum2::_1(v), Enum2::_1(w)) => v.logged(item, w),
            _ => false,
        }
    }

    fn log(self, item: Agent::Item) -> (r: Self) {
        match self {
            Enum2::_0(v) => Enum2::_0(v.log(item)),
            Enum2::_1(v) => Enum2::_1(v.log(item)),
        }
    }
}

impl<Agent: LogAgent, T0, T1, T2> Logger<Agent> for Enum3<T0, T1, T2> where
    T0: Logger<Agent>,
    T1: Logger<Agent>,
    T2: Logger<Agent>,
 {
    open spec fn logged(self, item: Agent::Item, r: Self) -> bool {
        match (self, r) {
            (Enum3::_0(v), Enum3::_0(w)) => v.logged(item, w),
            (Enum3::_1(v), Enum3::_1(w)) => v.logged(item, w),
            (Enum3::_2(v), Enum3::_2(w)) => v.logged(item, w),
            _ => false,
        }
    }

    fn log(self, item: Agent::Item) -> (r: Self) {
        match self {
            Enum3::_0(v) => Enum3::_0(v.log(item)),
            Enum3::_1(v) => Enum3::_1(v.log(item)),
            Enum3::_2(v) => Enum3::_2(v.log(item)),
        }
    }
}

impl<Agent: LogAgent, T0, T1, T2, T3> Logger<Agent> for Enum4<T0, T1, T2, T3> where
    T0: Logger<Agent>,
    T1: Logger<Agent>,
    T2: Logger<Agent>,
    T3: Logger<Agent>,
 {
    open spec fn logged(self, item: Agent::Item, r: Self) -> bool {
        match (self, r) {
            (Enum4::_0(v), Enum4::_0(w)) => v.logged(item, w),
            (Enum4::_1(v), Enum4::_1(w)) => v.logged(item, w),
            (Enum4::_2(v), Enum4::_2(w)) => v.logged(item, w),
            (Enum4::_3(v), Enum4::_3(w)) => v.logged(item, w),
            _ => false,
        }
    }

    fn log(self, item: Agent::Item) -> (r: Self) {
        match self {
            Enum4::_0(v) => Enum4::_0(v.log(item)),
            Enum4::_1(v) => Enum4::_1(v.log(item)),
            Enum4::_2(v) => Enum4::_2(v.log(item)),
            Enum4::_3(v) => Enum4::_3(v.log(item)),
        }
    }
}

/// An agent gated by a switch that travels with the value: the inner
/// agent receives items only while the switch is on.  The trait
/// constructors start with the switch off, since they cannot read it
/// from anywhere; a caller who read the switch hands it to `switched`
/// or `create_switched`.
#[derive(Debug, PartialEq, Eq)]
pub struct Env<Agent: LogAgent> {
    pub agent: Agent,
    pub enabled: bool,
}

impl<Agent: LogAgent> Env<Agent> {
    /// A fresh gated agent with the switch as the caller read it.
    pub fn switched(enabled: bool) -> (r: Self)
        ensures
            r.enabled == enabled,
            Agent::is_new(r.agent),
    {
        Env { agent: Agent::new(), enabled }
    }

    /// A gated agent created from one item under the switch: the item
    /// is kept when the switch is on and dropped when it is off.
    pub fn create_switched(enabled: bool, item: Agent::Item) -> (r: Self)
        ensures
            r.enabled == enabled,
            (if enabled {
                Agent::is_create(item, r.agent)
            } else {
                Agent::is_new(r.agent)
            }),
    {
        if enabled {
            Env { agent: Agent::create_log(item), enabled }
        } else {
            Env { agent: Agent::new(), enabled }
        }
    }
}

impl<Agent: LogAgent> LogAgent for Env<Agent> {
    type Item = <Agent as LogAgent>::Item;

    open spec fn is_new(r: Self) -> bool {
        !r.enabled && Agent::is_new(r.agent)
    }

    open spec fn is_create(item: Self::Item, r: Self) -> bool {
        !r.enabled && Agent::is_new(r.agent)
    }

    open spec fn is_append(pre: Self, item: Self::Item, post: Self) -> bool {
        post.enabled == pre.enabled && (if pre.enabled {
            Agent::is_append(pre.agent, item, post.agent)
        } else {
            post == pre
        })
    }

    fn new() -> (r: Self) {
        Env { agent: Agent::new(), enabled: false }
    }

    fn create_log(_item: Self::Item) -> (r: Self) {
        Env { agent: Agent::new(), enabled: false }
    }

    fn append_log(&mut self, item: Self::Item) {
        if self.enabled {
            self.agent.append_log(item);
        }
    }
}

/// Wraps the `Ok` variant of a result with `Log`.
pub trait MapToLog<Agent: LogAgent>: Sized {
    type Output;

    /// Relates the result of `map_to_log` to its input.
    spec fn map_to_log_ens(self, item: Agent::Item, r: Self::Output) -> bool;

    fn map_to_log(self, item: Agent::Item) -> (r: Self::Output)
        ensures
            self.map_to_log_ens(item, r),
    ;
}

impl<Agent: LogAgent, T, E> MapToLog<Agent> for Result<T, E> {
    type Output = Result<Log<T, Agent>, E>;

    open spec fn map_to_log_ens(self, item: Agent::Item, r: Self::Output) -> bool {
        match (self, r) {
            (Ok(v), Ok(l)) => l.error == v && Agent::is_create(item, l.agent),
            (Err(e), Err(f)) => f == e,
            _ => false,
        }
    }

    fn map_to_log(self, item: Agent::Item) -> (r: Self::Output) {
        match self {
            Ok(v) => Ok(v.to_log(item)),
            Err(e) => Err(e),
        }
    }
}

/// Wraps the `Err` variant of a result with `Log`.
pub trait MapErrToLog<Agent: LogAgent>: Sized {
    type Output;

    /// Relates the result of `map_err_to_log` to its input.
    spec fn map_err_to_log_ens(self, item: Agent::Item, r: Self::Output) -> bool;

    fn map_err_to_log(self, item: Agent::Item) -> (r: Self::Output)
        ensures
            self.map_err_to_log_ens(item, r),
    ;
}

impl<Agent: LogAgent, T, E> MapErrToLog<Agent> for Result<T, E> {
    type Output = Result<T, Log<E, Agent>>;

    open spec fn map_err_to_log_ens(self, item: Agent::Item, r: Self::Output) -> bool {
        match (self, r) {
            (Ok(v), Ok(w)) => w == v,
            (Err(e), Err(l)) => l.error == e && Agent::is_create(item, l.agent),
            _ => false,
        }
    }

    fn map_err_to_log(self, item: Agent::Item) -> (r: Self::Output) {
        match self {
            Ok(v) => Ok(v),
            Err(e) => Err(e.to_log(item)),
        }
    }
}

/// Appends a log item to the `Ok` variant of a result.
pub trait MapLog<Agent: LogAgent>: Sized {
    type Output;

    /// Relates the result of `map_log` to its input.
    spec fn map_log_ens(self, item: Agent::Item, r: Self::Output) -> bool;

    fn map_log(self, item: Agent::Item) -> (r: Self::Output)
        ensures
            self.map_log_ens(item, r),
    ;
}

impl<Agent: LogAgent, T, E> MapLog<Agent> for Result<T, E> where T: Logger<Agent> {
    type Output = Self;

    open spec fn map_log_ens(self, item: Agent::Item, r: Self) -> bool {
        match (self, r) {
            (Ok(v), Ok(w)) => v.logged(item, w),
            (Err(e), Err(f)) => f == e,
            _ => false,
        }
    }

    fn map_log(self, item: Agent::Item) -> (r: Self) {
        match self {
            Ok(v) => Ok(v.log(item)),
            Err(e) => Err(e),
        }
    }
}

/// Appends a log item to the `Err` variant of a result.
pub trait MapErrLog<Agent: LogAgent>: Sized {
    type Output;

    /// Relates the result of `map_err_log` to its input.
    spec fn map_err_log_ens(self, item: Agent::Item, r: Self::Output) -> bool;

    fn map_err_log(self, item: Agent::Item) -> (r: Self::Output)
        ensures
            self.map_err_log_ens(item, r),
    ;
}

impl<Agent: LogAgent, T, E> MapErrLog<Agent> for Result<T, E> where E: Logger<Agent> {
    type Output = Self;

    open spec fn map_err_log_ens(self, item: Agent::Item, r: Self) -> bool {
        match (self, r) {
            (Ok(v), Ok(w)) => w == v,
            (Err(e), Err(f)) => e.logged(item, f),
            _ => false,
        }
    }

    fn map_err_log(self, item: Agent::Item) -> (r: Self) {
        match self {
            Ok(v) => Ok(v),
            Err(e) => Err(e.log(item)),
        }
    }
}

/// One record of where an error passed: module, file, position, and an
/// optional note.
#[derive(Debug, Default, PartialEq, Eq, PartialOrd, Ord)]
pub struct Frame {
    pub module: &'static str,
    pub file: &'static str,
    pub line: u32,
    pub column: u32,
    pub info: Option<String>,
}

/// The frame at `site` without a note.
pub open spec fn site_frame(site: Frame) -> Frame {
    Frame {
        module: site.module,
        file: site.file,
        line: site.line,
        column: site.column,
        info: None,
    }
}

/// One frame pushed onto a one-frame list gives the two-frame list.
pub proof fn lemma_push_one(x: Frame, y: Frame)
    ensures
        seq![x].push(y) == seq![x, y],
{
    assert(seq![x].push(y) =~= seq![x, y]);
}

/// Makes the frame at `site` without a note.
pub fn frame_at(site: &Frame) -> (r: Frame)
    ensures
        r == site_frame(*site),
{
    Frame::new(site.module, site.file, site.line, site.column, None)
}

impl Frame {
    pub fn new(
        module: &'static str,
        file: &'static str,
        line: u32,
        column: u32,
        info: Option<String>,
    ) -> (r: Self)
        ensures
            r == (Frame { module, file, line, column, info }),
    {
        Frame { module, file, line, column, info }
    }
}

} // verus!
