//! The inference an error-channel rewriter performs, computed on
//! identified types.
//!
//! A type is known here by an opaque identity.  A function's declared
//! throw set is a list of such identities; the rewriter deduplicates it
//! keeping first occurrences (the minimal structural sum type), wraps
//! each throw type as the logging mode asks, resolves the position of
//! each source variant inside a destination sum type, and completes a
//! type-pattern match by listing the declared throws left unhandled.

use std::collections::hash_map::RandomState;
use vstd::prelude::*;

verus! {

#[verifier::external_type_specification]
#[verifier::external_body]
#[verifier::reject_recursive_types(T)]
#[verifier::reject_recursive_types(S)]
pub struct ExIndexSet<T, S>(indexmap::IndexSet<T, S>);

/// What an `indexmap::IndexSet` holds, in insertion order.
pub uninterp spec fn set_elems(s: indexmap::IndexSet<u64, RandomState>) -> Seq<u64>;

/// Relies on `indexmap::IndexSet::new`: the new set is empty.
#[verifier::external_body]
fn set_new() -> (s: indexmap::IndexSet<u64, RandomState>)
    ensures
        set_elems(s) == Seq::<u64>::empty(),
{
    indexmap::IndexSet::new()
}

/// Relies on `indexmap::IndexSet::insert`: a present value leaves the
/// set unaltered and returns false; a fresh one is appended in
/// insertion order and returns true.
#[verifier::external_body]
fn set_insert(s: &mut indexmap::IndexSet<u64, RandomState>, v: u64) -> (b: bool)
    ensures
        set_elems(*old(s)).contains(v) ==> b == false && set_elems(*final(s)) == set_elems(
            *old(s),
        ),
        !set_elems(*old(s)).contains(v) ==> b == true && set_elems(*final(s)) == set_elems(
            *old(s),
        ).push(v),
{
    s.insert(v)
}

/// The declared throw list with every repetition dropped, first
/// occurrences kept in order: the variant list of the minimal
/// structural sum type for the union of those throws.
pub open spec fn spec_dedup(s: Seq<u64>) -> Seq<u64>
    decreases s.len(),
{
    if s.len() == 0 {
        Seq::empty()
    } else {
        let p = spec_dedup(s.drop_last());
        if p.contains(s.last()) {
            p
        } else {
            p.push(s.last())
        }
    }
}

/// Deduplicates a declared throw list, keeping first occurrences in
/// order.
pub fn dedup_throws(throws: &Vec<u64>) -> (r: Vec<u64>)
    ensures
        r@ == spec_dedup(throws@),
{
    let mut seen = set_new();
    let mut out: Vec<u64> = Vec::new();
    let mut i: usize = 0;
    while i < throws.len()
        invariant
            0 <= i <= throws@.len(),
            set_elems(seen) == spec_dedup(throws@.subrange(0, i as int)),
            out@ == spec_dedup(throws@.subrange(0, i as int)),
        decreases throws@.len() - i,
    {
        let t = throws[i];
        let fresh = set_insert(&mut seen, t);
        if fresh {
            out.push(t);
        }
        proof {
            let prefix = throws@.subrange(0, i as int);
            let next = throws@.subrange(0, i + 1);
            assert(next.drop_last() =~= prefix);
            assert(next.last() == t);
        }
        i = i + 1;
    }
    proof {
        assert(throws@.subrange(0, throws@.len() as int) =~= throws@);
    }
    out
}

/// The deduplicated throw list holds exactly the types of the declared
/// one: nothing is lost and nothing is invented.
pub proof fn lemma_dedup_members(s: Seq<u64>)
    ensures
        forall|x: u64| #[trigger] spec_dedup(s).contains(x) <==> s.contains(x),
    decreases s.len(),
{
    if s.len() > 0 {
        lemma_dedup_members(s.drop_last());
        let p = spec_dedup(s.drop_last());
        let d = spec_dedup(s);
        assert forall|x: u64| s.contains(x) implies #[trigger] d.contains(x) by {
            let i = choose|i: int| 0 <= i < s.len() && s[i] == x;
            if i < s.len() - 1 {
                assert(s.drop_last().contains(x)) by {
                    assert(s.drop_last()[i] == x);
                }
                assert(spec_dedup(s.drop_last()).contains(x));
                let j = choose|j: int| 0 <= j < p.len() && p[j] == x;
                if !p.contains(s.last()) {
                    assert(d[j] == x);
                } else {
                    assert(d[j] == x);
                }
            } else {
                if p.contains(s.last()) {
                    assert(d.contains(x));
                } else {
                    assert(d.last() == x);
                }
            }
        };
        assert forall|x: u64| #[trigger] d.contains(x) implies s.contains(x) by {
            let j = choose|j: int| 0 <= j < d.len() && d[j] == x;
            if j < p.len() {
                assert(spec_dedup(s.drop_last()).contains(x)) by {
                    assert(p[j] == x);
                }
                assert(s.drop_last().contains(x));
                let i = choose|i: int| 0 <= i < s.drop_last().len() && s.drop_last()[i] == x;
                assert(s[i] == x);
            } else {
                assert(x == s.last());
                assert(s[s.len() - 1] == x);
            }
        };
    }
}

/// The deduplicated throw list repeats nothing.
pub proof fn lemma_dedup_distinct(s: Seq<u64>)
    ensures
        forall|i: int, j: int|
            0 <= i < j < spec_dedup(s).len() ==> spec_dedup(s)[i] != spec_dedup(s)[j],
    decreases s.len(),
{
    if s.len() > 0 {
        lemma_dedup_distinct(s.drop_last());
        let p = spec_dedup(s.drop_last());
        let d = spec_dedup(s);
        if !p.contains(s.last()) {
            assert forall|i: int, j: int| 0 <= i < j < d.len() implies d[i] != d[j] by {
                if j < p.len() {
                    assert(p[i] != p[j]);
                } else {
                    assert(d[j] == s.last());
                    assert(d[i] == p[i]);
                    if d[i] == s.last() {
                        assert(p.contains(s.last())) by {
                            assert(p[i] == s.last());
                        }
                    }
                }
            };
        }
    }
}

/// How a rewriter dresses the error channel.
#[derive(Clone, Copy, Debug, PartialEq, Eq)]
pub enum LoggerMode {
    Off,
    Static,
    EnvOpt,
}

/// A throw type as it stands in the rewritten error channel: bare,
/// wrapped in a log, or wrapped in an environment-gated log.
#[derive(Clone, Copy, Debug, PartialEq, Eq)]
pub enum ThrowShape {
    Plain(u64),
    Logged(u64),
    EnvLogged(u64),
}

/// The dress a mode puts on one throw type.
pub open spec fn spec_wrap(mode: LoggerMode, id: u64) -> ThrowShape {
    match mode {
        LoggerMode::Off => ThrowShape::Plain(id),
        LoggerMode::Static => ThrowShape::Logged(id),
        LoggerMode::EnvOpt => ThrowShape::EnvLogged(id),
    }
}

/// The rewritten error channel of a declared throw list: deduplicated,
/// each type dressed as the mode asks.
pub open spec fn spec_channel(mode: LoggerMode, throws: Seq<u64>) -> Seq<ThrowShape> {
    spec_dedup(throws).map_values(|id: u64| spec_wrap(mode, id))
}

/// Resolves the error channel of a declared throw list under a mode.
pub fn resolve_channel(mode: LoggerMode, throws: &Vec<u64>) -> (r: Vec<ThrowShape>)
    ensures
        r@ == spec_channel(mode, throws@),
{
    let d = dedup_throws(throws);
    let mut out: Vec<ThrowShape> = Vec::new();
    let mut i: usize = 0;
    while i < d.len()
        invariant
            0 <= i <= d@.len(),
            d@ == spec_dedup(throws@),
            out@ == d@.subrange(0, i as int).map_values(|id: u64| spec_wrap(mode, id)),
        decreases d@.len() - i,
    {
        let id = d[i];
        let shape = match mode {
            LoggerMode::Off => ThrowShape::Plain(id),
            LoggerMode::Static => ThrowShape::Logged(id),
            LoggerMode::EnvOpt => ThrowShape::EnvLogged(id),
        };
        out.push(shape);
        proof {
            assert(d@.subrange(0, i + 1).map_values(|x: u64| spec_wrap(mode, x)) =~= d@.subrange(
                0,
                i as int,
            ).map_values(|x: u64| spec_wrap(mode, x)).push(spec_wrap(mode, id)));
        }
        i = i + 1;
    }
    proof {
        assert(d@.subrange(0, d@.len() as int) =~= d@);
    }
    out
}

/// The error channel without provenance.
pub fn cex(throws: &Vec<u64>) -> (r: Vec<ThrowShape>)
    ensures
        r@ == spec_channel(LoggerMode::Off, throws@),
{
    resolve_channel(LoggerMode::Off, throws)
}

/// The error channel with every throw type wrapped in a log.
pub fn cex_log(throws: &Vec<u64>) -> (r: Vec<ThrowShape>)
    ensures
        r@ == spec_channel(LoggerMode::Static, throws@),
{
    resolve_channel(LoggerMode::Static, throws)
}

/// The error channel with every throw type wrapped in an
/// environment-gated log.
pub fn cex_env_log(throws: &Vec<u64>) -> (r: Vec<ThrowShape>)
    ensures
        r@ == spec_channel(LoggerMode::EnvOpt, throws@),
{
    resolve_channel(LoggerMode::EnvOpt, throws)
}

/// Whether `v` holds `x`.
fn vec_contains(v: &Vec<u64>, x: u64) -> (r: bool)
    ensures
        r == v@.contains(x),
{
    let mut i: usize = 0;
    while i < v.len()
        invariant
            0 <= i <= v@.len(),
            forall|j: int| 0 <= j < i ==> v@[j] != x,
        decreases v@.len() - i,
    {
        if v[i] == x {
            return true;
        }
        i = i + 1;
    }
    false
}

/// The first position of `x` in `v`, if any.
fn first_index_of(v: &Vec<u64>, x: u64) -> (r: Option<usize>)
    ensures
        (match r {
            Some(i) => i < v@.len() && v@[i as int] == x && forall|j: int| 0 <= j < i ==> v@[j]
                != x,
            None => !v@.contains(x),
        }),
{
    let mut i: usize = 0;
    while i < v.len()
        invariant
            0 <= i <= v@.len(),
            forall|j: int| 0 <= j < i ==> v@[j] != x,
        decreases v@.len() - i,
    {
        if v[i] == x {
            return Some(i);
        }
        i = i + 1;
    }
    None
}

/// Resolves the exchange of one sum type into another: for each source
/// variant type, the first destination position holding the same type.
/// The exchange exists exactly when every source variant type appears
/// somewhere in the destination.
pub fn exchange_indices(src: &Vec<u64>, dest: &Vec<u64>) -> (r: Option<Vec<usize>>)
    ensures
        r is Some <==> (forall|i: int| 0 <= i < src@.len() ==> dest@.contains(src@[i])),
        (match r {
            Some(ix) => ix@.len() == src@.len() && (forall|i: int|
                0 <= i < src@.len() ==> ix@[i] < dest@.len()) && (forall|i: int|
                0 <= i < src@.len() ==> dest@[ix@[i] as int] == src@[i]) && (forall|i: int, j: int|
                0 <= i < src@.len() && 0 <= j < ix@[i] ==> dest@[j] != src@[i]),
            None => true,
        }),
{
    let mut out: Vec<usize> = Vec::new();
    let mut i: usize = 0;
    while i < src.len()
        invariant
            0 <= i <= src@.len(),
            out@.len() == i,
            forall|k: int| 0 <= k < i ==> out@[k] < dest@.len(),
            forall|k: int| 0 <= k < i ==> dest@[out@[k] as int] == src@[k],
            forall|k: int, j: int| 0 <= k < i && 0 <= j < out@[k] ==> dest@[j] != src@[k],
        decreases src@.len() - i,
    {
        let s = src[i];
        match first_index_of(dest, s) {
            Some(p) => {
                out.push(p);
                proof {
                    assert(out@[i as int] == p);
                    assert forall|k: int, j: int|
                        0 <= k < i + 1 && 0 <= j < out@[k] implies dest@[j] != src@[k] by {
                        if k < i {
                            assert(dest@[j] != src@[k]);
                        } else {
                            assert(out@[k] == p);
                        }
                    };
                }
            },
            None => {
                return None;
            },
        }
        i = i + 1;
    }
    proof {
        assert forall|k: int| 0 <= k < src@.len() implies dest@.contains(src@[k]) by {
            assert(dest@[out@[k] as int] == src@[k]);
        };
    }
    Some(out)
}

/// The declared throws a type-pattern match leaves unhandled, in
/// declaration order: the arms a rewriter generates as rethrows.
pub open spec fn spec_missing(handled: Seq<u64>, throws: Seq<u64>) -> Seq<u64> {
    throws.filter(|t: u64| !handled.contains(t))
}

/// Completes a type-pattern match: the declared throws with no arm of
/// their own, each to be rethrown by a generated arm.
pub fn gen_throws_arms(handled: &Vec<u64>, throws: &Vec<u64>) -> (r: Vec<u64>)
    ensures
        r@ == spec_missing(handled@, throws@),
{
    let mut out: Vec<u64> = Vec::new();
    let mut i: usize = 0;
    proof {
        assert(throws@.subrange(0, 0).filter(|t: u64| !handled@.contains(t)) =~= Seq::<
            u64,
        >::empty());
    }
    while i < throws.len()
        invariant
            0 <= i <= throws@.len(),
            out@ == throws@.subrange(0, i as int).filter(|t: u64| !handled@.contains(t)),
        decreases throws@.len() - i,
    {
        let t = throws[i];
        let handled_here = vec_contains(handled, t);
        if !handled_here {
            out.push(t);
        }
        proof {
            let prefix = throws@.subrange(0, i as int);
            let next = throws@.subrange(0, i + 1);
            assert(next.drop_last() =~= prefix);
            assert(next.last() == t);
            reveal_with_fuel(Seq::filter, 2);
        }
        i = i + 1;
    }
    proof {
        assert(throws@.subrange(0, throws@.len() as int) =~= throws@);
    }
    out
}

/// One declared variant as a derive reads it: its payload type, its
/// field count, and whether the fields are named.
#[derive(Clone, Copy, Debug, PartialEq, Eq)]
pub struct VariantShape {
    pub ty: u64,
    pub fields: u64,
    pub named: bool,
}

/// A variant a derive accepts: exactly one unnamed payload.
pub open spec fn wellformed_variant(v: VariantShape) -> bool {
    v.fields == 1 && !v.named
}

/// Whether every variant carries exactly one unnamed payload.
pub open spec fn all_wellformed(vs: Seq<VariantShape>) -> bool {
    forall|i: int| 0 <= i < vs.len() ==> wellformed_variant(#[trigger] vs[i])
}

/// The payload types of the variants, in declaration order.
pub open spec fn variant_types(vs: Seq<VariantShape>) -> Seq<u64> {
    vs.map_values(|v: VariantShape| v.ty)
}

fn check_variants(vs: &Vec<VariantShape>) -> (r: bool)
    ensures
        r == all_wellformed(vs@),
{
    let mut i: usize = 0;
    while i < vs.len()
        invariant
            0 <= i <= vs@.len(),
            forall|j: int| 0 <= j < i ==> wellformed_variant(#[trigger] vs@[j]),
        decreases vs@.len() - i,
    {
        let v = vs[i];
        if v.fields != 1 || v.named {
            return false;
        }
        i = i + 1;
    }
    true
}

fn collect_types(vs: &Vec<VariantShape>) -> (r: Vec<u64>)
    ensures
        r@ == variant_types(vs@),
{
    let mut out: Vec<u64> = Vec::new();
    let mut i: usize = 0;
    proof {
        assert(out@ =~= vs@.subrange(0, 0).map_values(|v: VariantShape| v.ty));
    }
    while i < vs.len()
        invariant
            0 <= i <= vs@.len(),
            out@ == vs@.subrange(0, i as int).map_values(|v: VariantShape| v.ty),
        decreases vs@.len() - i,
    {
        out.push(vs[i].ty);
        proof {
            assert(out@ =~= vs@.subrange(0, i + 1).map_values(|v: VariantShape| v.ty));
        }
        i = i + 1;
    }
    proof {
        assert(vs@.subrange(0, vs@.len() as int) =~= vs@);
    }
    out
}

/// Plans the variant-injection derivation for a declared enum: one
/// injection per position, carrying that position's payload type.  An
/// enum with any variant that is not a single unnamed payload is
/// refused.
pub fn derive_from_variant(variants: &Vec<VariantShape>) -> (r: Option<Vec<u64>>)
    ensures
        r is Some <==> all_wellformed(variants@),
        (match r {
            Some(tys) => tys@ == variant_types(variants@),
            None => true,
        }),
{
    if check_variants(variants) {
        Some(collect_types(variants))
    } else {
        None
    }
}

/// Plans the prototype derivation for a declared enum: the bridge to
/// the prototype of the enum's arity.  The same variants are accepted
/// as for the injections.
pub fn derive_proto(variants: &Vec<VariantShape>) -> (r: Option<usize>)
    ensures
        r is Some <==> all_wellformed(variants@),
        (match r {
            Some(arity) => arity == variants@.len(),
            None => true,
        }),
{
    if check_variants(variants) {
        Some(variants.len())
    } else {
        None
    }
}

/// What deriving the exchange machinery emits for a declared enum: one
/// variant injection per position, and the prototype of the enum's
/// arity.
pub struct ExchangePlan {
    pub injections: Vec<u64>,
    pub proto_arity: usize,
}

/// Plans the whole exchange derivation: the injections followed by the
/// prototype bridge, both over the same declared variants.
pub fn derive_exchange(variants: &Vec<VariantShape>) -> (r: Option<ExchangePlan>)
    ensures
        r is Some <==> all_wellformed(variants@),
        (match r {
            Some(p) => p.injections@ == variant_types(variants@) && p.proto_arity
                == variants@.len(),
            None => true,
        }),
{
    let injections = match derive_from_variant(variants) {
        Some(tys) => tys,
        None => {
            return None;
        },
    };
    let proto_arity = match derive_proto(variants) {
        Some(arity) => arity,
        None => {
            return None;
        },
    };
    Some(ExchangePlan { injections, proto_arity })
}

/// Plans the logger derivation for a declared enum: one delegating
/// match arm per variant, each handing the item to its position's
/// payload, in declaration order.
pub fn derive_logger(variants: &Vec<VariantShape>) -> (r: Option<Vec<u64>>)
    ensures
        r is Some <==> all_wellformed(variants@),
        (match r {
            Some(arms) => arms@ == variant_types(variants@),
            None => true,
        }),
{
    if check_variants(variants) {
        Some(collect_types(variants))
    } else {
        None
    }
}

/// What an attribute rewriter was handed: a function item, a closure,
/// a local binding, or something it does not take.
#[derive(Clone, Copy, Debug, PartialEq, Eq)]
pub enum MacroTarget {
    FnItem,
    Closure,
    LetBinding,
    Other,
}

/// The dispatching entry of the error-channel rewriters: a function,
/// closure or local binding gets its declared throw set resolved under
/// the mode; anything else is refused.
pub fn expand_cex(mode: LoggerMode, target: MacroTarget, throws: &Vec<u64>) -> (r: Option<
    Vec<ThrowShape>,
>)
    ensures
        r is Some <==> target != MacroTarget::Other,
        (match r {
            Some(c) => c@ == spec_channel(mode, throws@),
            None => true,
        }),
{
    match target {
        MacroTarget::Other => None,
        _ => Some(resolve_channel(mode, throws)),
    }
}

/// The dispatching entry of the plain exchange rewriter: a function,
/// closure or local binding gets the minimal sum type of its declared
/// return alternatives; anything else is refused.
pub fn enumx(target: MacroTarget, ret_types: &Vec<u64>) -> (r: Option<Vec<u64>>)
    ensures
        r is Some <==> target != MacroTarget::Other,
        (match r {
            Some(d) => d@ == spec_dedup(ret_types@),
            None => true,
        }),
{
    match target {
        MacroTarget::Other => None,
        _ => Some(dedup_throws(ret_types)),
    }
}

/// A resolved error channel: the Ok type beside the dressed throw set.
pub struct ErrorChannel {
    pub ok: u64,
    pub throws: Vec<ThrowShape>,
}

/// The declared result type with every throw wrapped in a log.
#[allow(non_snake_case)]
pub fn ResultLog(ok: u64, throws: &Vec<u64>) -> (r: ErrorChannel)
    ensures
        r.ok == ok,
        r.throws@ == spec_channel(LoggerMode::Static, throws@),
{
    ErrorChannel { ok, throws: resolve_channel(LoggerMode::Static, throws) }
}

/// The declared result type with every throw wrapped in an
/// environment-gated log.
#[allow(non_snake_case)]
pub fn ResultEnvLog(ok: u64, throws: &Vec<u64>) -> (r: ErrorChannel)
    ensures
        r.ok == ok,
        r.throws@ == spec_channel(LoggerMode::EnvOpt, throws@),
{
    ErrorChannel { ok, throws: resolve_channel(LoggerMode::EnvOpt, throws) }
}

/// The structural sum type a type list denotes: the enum of the list's
/// arity over exactly those types, in order.
pub struct EnumShape {
    pub arity: usize,
    pub variants: Vec<u64>,
}

/// Denotes the structural sum type of a type list.
#[allow(non_snake_case)]
pub fn Enum(types: &Vec<u64>) -> (r: EnumShape)
    ensures
        r.arity == types@.len(),
        r.variants@ == types@,
{
    let variants = types.clone();
    proof {
        assert(variants@ =~= types@);
    }
    EnumShape { arity: variants.len(), variants }
}

/// What the type-pattern match rewriter decides for one match: the
/// scrutinee position of each written arm's type, and the scrutinee
/// types with no arm of their own, to be rethrown by generated arms.
/// An arm naming a type outside the scrutinee's set refuses the match.
pub fn ty_pat_match(handled: &Vec<u64>, scrutinee: &Vec<u64>) -> (r: Option<
    (Vec<usize>, Vec<u64>),
>)
    ensures
        r is Some <==> (forall|i: int|
            0 <= i < handled@.len() ==> scrutinee@.contains(handled@[i])),
        (match r {
            Some(p) => p.0@.len() == handled@.len() && (forall|i: int|
                0 <= i < handled@.len() ==> p.0@[i] < scrutinee@.len()) && (forall|i: int|
                0 <= i < handled@.len() ==> scrutinee@[p.0@[i] as int] == handled@[i]) && (forall|
                i: int,
                j: int,
            |
                0 <= i < handled@.len() && 0 <= j < p.0@[i] ==> scrutinee@[j] != handled@[i])
                && p.1@ == spec_missing(handled@, scrutinee@),
            None => true,
        }),
{
    match exchange_indices(handled, scrutinee) {
        Some(positions) => Some((positions, gen_throws_arms(handled, scrutinee))),
        None => None,
    }
}

/// How the argument of a type-pattern attribute reads.
pub enum TyPatShape {
    NotTyPat,
    NoArgs,
    GenThrows,
    Gen(Vec<u64>),
    OtherArg,
}

/// What a type-pattern match asks for: its own arms alone, generated
/// rethrow arms for the whole remaining throw set, or generated arms
/// for a listed set, dressed as the mode asks.
pub enum TyPatKind {
    Bare,
    GenThrows,
    Gen(Vec<ThrowShape>),
}

/// A parsed type-pattern attribute, an attribute that is no such
/// thing, or a refused argument.
pub enum TyPatParse {
    NotApplicable,
    Invalid,
    Parsed(TyPatKind),
}

/// Parses a type-pattern attribute: an unrelated attribute passes
/// through, no argument asks for the bare match, the generate-all word
/// or an empty list asks for the whole remaining throw set, a type
/// list asks for exactly that set dressed under the mode, and any
/// other argument is refused.
pub fn parse_ty_pat_attr(mode: LoggerMode, shape: TyPatShape) -> (r: TyPatParse)
    ensures
        (match shape {
            TyPatShape::NotTyPat => r == TyPatParse::NotApplicable,
            TyPatShape::NoArgs => r == TyPatParse::Parsed(TyPatKind::Bare),
            TyPatShape::GenThrows => r == TyPatParse::Parsed(TyPatKind::GenThrows),
            TyPatShape::Gen(list) => if list@.len() == 0 {
                r == TyPatParse::Parsed(TyPatKind::GenThrows)
            } else {
                match r {
                    TyPatParse::Parsed(TyPatKind::Gen(c)) => c@ == spec_channel(mode, list@),
                    _ => false,
                }
            },
            TyPatShape::OtherArg => r == TyPatParse::Invalid,
        }),
{
    match shape {
        TyPatShape::NotTyPat => TyPatParse::NotApplicable,
        TyPatShape::NoArgs => TyPatParse::Parsed(TyPatKind::Bare),
        TyPatShape::GenThrows => TyPatParse::Parsed(TyPatKind::GenThrows),
        TyPatShape::Gen(list) => {
            if list.len() == 0 {
                TyPatParse::Parsed(TyPatKind::GenThrows)
            } else {
                TyPatParse::Parsed(TyPatKind::Gen(resolve_channel(mode, &list)))
            }
        },
        TyPatShape::OtherArg => TyPatParse::Invalid,
    }
}

} // verus!
