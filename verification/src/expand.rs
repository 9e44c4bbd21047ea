//! The declaration side of the rewriter, planned on identified types:
//! what the enum-family generator, the per-arity impl generator, and
//! the sum-collection attribute decide, each computed here on plain
//! values.  Reading real syntax into these shapes and rendering the
//! plans back out is a front end's business.

use vstd::prelude::*;

verus! {

/// One bound of a range expression: absent, an integer literal, or
/// some other expression.
#[derive(Clone, Copy, Debug, PartialEq, Eq)]
pub enum BoundShape {
    Absent,
    IntLit(usize),
    Other,
}

/// The lower bound a range expression denotes, if it denotes one.
pub open spec fn spec_range_lo(from: BoundShape) -> Option<int> {
    match from {
        BoundShape::Absent => Some(0int),
        BoundShape::IntLit(n) => Some(n as int),
        BoundShape::Other => None,
    }
}

/// The exclusive upper bound a range expression denotes, if it
/// denotes one.
pub open spec fn spec_range_hi(to: BoundShape, inclusive: bool) -> Option<int> {
    match to {
        BoundShape::Absent => Some(if inclusive { 1int } else { 0int }),
        BoundShape::IntLit(n) => Some(if inclusive { n + 1 } else { n as int }),
        BoundShape::Other => None,
    }
}

/// Reads a range of arities out of a range expression: a missing bound
/// counts as zero, an inclusive upper bound is shifted past its end,
/// and any bound that is no integer literal refuses the whole range.
pub fn parse_range(from: BoundShape, to: BoundShape, inclusive: bool) -> (r: Option<
    (usize, usize),
>)
    requires
        (match to {
            BoundShape::IntLit(n) => !inclusive || n < usize::MAX,
            _ => true,
        }),
    ensures
        (match (spec_range_lo(from), spec_range_hi(to, inclusive)) {
            (Some(lo), Some(hi)) => r == Some((lo as usize, hi as usize)),
            _ => r is None,
        }),
{
    let lo: usize = match from {
        BoundShape::Absent => 0,
        BoundShape::IntLit(n) => n,
        BoundShape::Other => {
            return None;
        },
    };
    let hi: usize = match to {
        BoundShape::Absent => 0,
        BoundShape::IntLit(n) => n,
        BoundShape::Other => {
            return None;
        },
    };
    let hi: usize = if inclusive {
        hi + 1
    } else {
        hi
    };
    Some((lo, hi))
}

/// How the head of a declaration block reads, by its leading tokens:
/// a macro invocation, a leading impl, a ranged enum with a bang after
/// its name, or a plain enum definition.
#[derive(Clone, Copy, Debug, PartialEq, Eq)]
pub enum DefHead {
    LeadingMacro { is_def: bool },
    LeadingImpl,
    RangedEnum { from: BoundShape, to: BoundShape, inclusive: bool },
    PlainEnum,
}

/// What a declaration block turns out to hold.
#[derive(Clone, Copy, Debug, PartialEq, Eq)]
pub enum DefKind {
    Snapshot,
    ImplsOnly,
    Ranged(usize, usize),
    Single,
}

/// Classifies the head of a declaration block: a `_def` macro is a
/// snapshot of an enum defined elsewhere, a leading impl leaves no
/// definition, a bang after the enum name opens a ranged family, and
/// anything else is a single enum.  A macro other than `_def`, or a
/// range with a non-literal bound, refuses the block.
pub fn parse_def_head(head: DefHead) -> (r: Option<DefKind>)
    requires
        (match head {
            DefHead::RangedEnum { to: BoundShape::IntLit(n), inclusive, .. } => !inclusive || n
                < usize::MAX,
            _ => true,
        }),
    ensures
        (match head {
            DefHead::LeadingMacro { is_def } => r == (if is_def {
                Some(DefKind::Snapshot)
            } else {
                Option::<DefKind>::None
            }),
            DefHead::LeadingImpl => r == Some(DefKind::ImplsOnly),
            DefHead::RangedEnum { from, to, inclusive } => (match (
                spec_range_lo(from),
                spec_range_hi(to, inclusive),
            ) {
                (Some(lo), Some(hi)) => r == Some(DefKind::Ranged(lo as usize, hi as usize)),
                _ => r is None,
            }),
            DefHead::PlainEnum => r == Some(DefKind::Single),
        }),
{
    match head {
        DefHead::LeadingMacro { is_def } => {
            if is_def {
                Some(DefKind::Snapshot)
            } else {
                None
            }
        },
        DefHead::LeadingImpl => Some(DefKind::ImplsOnly),
        DefHead::RangedEnum { from, to, inclusive } => match parse_range(from, to, inclusive) {
            Some((lo, hi)) => Some(DefKind::Ranged(lo, hi)),
            None => None,
        },
        DefHead::PlainEnum => Some(DefKind::Single),
    }
}

/// What the family generator emits for one arity: an enum with that
/// many positional variants, the declared where-predicates replicated
/// once per variant, and — for the prototype family — one exchange
/// impl going through that prototype.
pub struct EnumPlan {
    pub arity: usize,
    pub n_where_preds: usize,
    pub proto_exchange: bool,
}

/// Plans the enum family over a range of arities: one enum per arity
/// in `lo..hi`, each with its predicates replicated per variant, and
/// an exchange impl for every non-empty member of the prototype
/// family.
pub fn def_impls(lo: usize, hi: usize, n_preds: usize, proto: bool) -> (r: Vec<EnumPlan>)
    requires
        lo <= hi,
        n_preds * hi <= usize::MAX,
    ensures
        r@.len() == hi - lo,
        forall|i: int|
            0 <= i < r@.len() ==> (#[trigger] r@[i]).arity == lo + i && r@[i].n_where_preds
                == n_preds * (lo + i) && r@[i].proto_exchange == (proto && lo + i != 0),
{
    let mut out: Vec<EnumPlan> = Vec::new();
    let mut k: usize = lo;
    while k < hi
        invariant
            lo <= k <= hi,
            n_preds * hi <= usize::MAX,
            out@.len() == k - lo,
            forall|i: int|
                0 <= i < out@.len() ==> (#[trigger] out@[i]).arity == lo + i
                    && out@[i].n_where_preds == n_preds * (lo + i) && out@[i].proto_exchange == (
                proto && lo + i != 0),
        decreases hi - k,
    {
        proof {
            assert(n_preds * k <= n_preds * hi) by (nonlinear_arith)
                requires
                    k <= hi,
                    n_preds >= 0,
            ;
        }
        out.push(EnumPlan { arity: k, n_where_preds: n_preds * k, proto_exchange: proto && k != 0 });
        k = k + 1;
    }
    out
}

/// A range bound shifted down by one, stopping at zero.
pub open spec fn spec_shift(n: usize) -> int {
    if n > 0 {
        n - 1
    } else {
        0
    }
}

/// What the per-arity impl generator emits for one member of the
/// family: an impl for the enum of that arity, a match with one arm
/// per position in order, and the declared predicates replicated per
/// variant.
pub struct ImplPlan {
    pub arity: usize,
    pub arms: Vec<usize>,
    pub n_where_preds: usize,
}

/// Plans an impl block written over a ranged family: the range of
/// positions is shifted down by one at both ends, and each member `k`
/// of the shifted range gets an impl for the enum of arity `k + 1`
/// whose match delegates position by position.
pub fn expand_enum_impl(lo: usize, hi: usize, n_preds: usize) -> (r: Vec<ImplPlan>)
    requires
        lo <= hi,
        n_preds * hi <= usize::MAX,
    ensures
        r@.len() == spec_shift(hi) - spec_shift(lo),
        forall|k: int|
            0 <= k < r@.len() ==> (#[trigger] r@[k]).arity == spec_shift(lo) + k + 1,
        forall|k: int|
            0 <= k < r@.len() ==> (#[trigger] r@[k]).arms@ == Seq::new(
                (spec_shift(lo) + k + 1) as nat,
                |i: int| i as usize,
            ),
        forall|k: int|
            0 <= k < r@.len() ==> (#[trigger] r@[k]).n_where_preds == n_preds * (spec_shift(lo) + k
                + 1),
{
    let lo_s: usize = if lo > 0 {
        lo - 1
    } else {
        0
    };
    let hi_s: usize = if hi > 0 {
        hi - 1
    } else {
        0
    };
    let mut out: Vec<ImplPlan> = Vec::new();
    let mut k: usize = lo_s;
    while k < hi_s
        invariant
            lo_s == spec_shift(lo),
            hi_s == spec_shift(hi),
            lo_s <= k <= hi_s,
            hi_s < hi || hi == 0,
            n_preds * hi <= usize::MAX,
            out@.len() == k - lo_s,
            forall|j: int|
                0 <= j < out@.len() ==> (#[trigger] out@[j]).arity == lo_s + j + 1,
            forall|j: int|
                0 <= j < out@.len() ==> (#[trigger] out@[j]).arms@ == Seq::new(
                    (lo_s + j + 1) as nat,
                    |i: int| i as usize,
                ),
            forall|j: int|
                0 <= j < out@.len() ==> (#[trigger] out@[j]).n_where_preds == n_preds * (lo_s + j
                    + 1),
        decreases hi_s - k,
    {
        let arity = k + 1;
        let mut arms: Vec<usize> = Vec::new();
        let mut i: usize = 0;
        while i < arity
            invariant
                0 <= i <= arity,
                arms@ == Seq::new(i as nat, |p: int| p as usize),
            decreases arity - i,
        {
            arms.push(i);
            proof {
                assert(arms@ =~= Seq::new((i + 1) as nat, |p: int| p as usize));
            }
            i = i + 1;
        }
        proof {
            assert(n_preds * arity <= n_preds * hi) by (nonlinear_arith)
                requires
                    arity <= hi,
                    n_preds >= 0,
            ;
        }
        out.push(ImplPlan { arity, arms, n_where_preds: n_preds * arity });
        k = k + 1;
    }
    out
}


/// How the argument of one variant mark reads.
#[derive(Clone, Copy, Debug, PartialEq, Eq)]
pub enum LabelShape {
    Empty,
    Single(u64),
    SelectorHole(u64),
    SelectorLabel(u64, u64),
    Other,
}

/// One variant mark: which impl-trait collection it addresses, and the
/// label tying marks together, either part optional.
#[derive(Clone, Copy, Debug, PartialEq, Eq)]
pub struct VariantMark {
    pub selector: Option<u64>,
    pub label: Option<u64>,
}

/// A parsed variant mark, or the refusal of a malformed one.
#[derive(Clone, Copy, Debug, PartialEq, Eq)]
pub enum MarkParse {
    Parsed(VariantMark),
    Invalid,
}

/// What each shape of a variant mark's argument parses to: nothing is
/// the bare mark, a lone name is a label, a name before a hole is a
/// selector alone, two names are a selector and a label, and anything
/// else is refused.
pub open spec fn spec_parse_label(shape: LabelShape) -> MarkParse {
    match shape {
        LabelShape::Empty => MarkParse::Parsed(VariantMark { selector: None, label: None }),
        LabelShape::Single(l) => MarkParse::Parsed(VariantMark { selector: None, label: Some(l) }),
        LabelShape::SelectorHole(s) => MarkParse::Parsed(
            VariantMark { selector: Some(s), label: None },
        ),
        LabelShape::SelectorLabel(s, l) => MarkParse::Parsed(
            VariantMark { selector: Some(s), label: Some(l) },
        ),
        LabelShape::Other => MarkParse::Invalid,
    }
}

/// Parses one variant mark's argument, as `spec_parse_label` says.
pub fn parse_variant_label(shape: LabelShape) -> (r: MarkParse)
    ensures
        r == spec_parse_label(shape),
{
    match shape {
        LabelShape::Empty => MarkParse::Parsed(VariantMark { selector: None, label: None }),
        LabelShape::Single(l) => MarkParse::Parsed(VariantMark { selector: None, label: Some(l) }),
        LabelShape::SelectorHole(s) => MarkParse::Parsed(
            VariantMark { selector: Some(s), label: None },
        ),
        LabelShape::SelectorLabel(s, l) => MarkParse::Parsed(
            VariantMark { selector: Some(s), label: Some(l) },
        ),
        LabelShape::Other => MarkParse::Invalid,
    }
}

/// One attribute on a marked expression: an unrelated attribute, a
/// bare variant mark, or a variant mark with an argument.
#[derive(Clone, Copy, Debug, PartialEq, Eq)]
pub enum AttrShape {
    Unrelated(u64),
    VariantBare,
    VariantGroup(LabelShape),
}

/// What taking the variant mark off an attribute list leaves: the mark
/// whose selector matches the active one — the last such mark winning,
/// a bare mark matching any selector — and the attributes kept, in
/// order: the unrelated ones and the marks addressed to another
/// collection.  A malformed mark refuses the whole list.
pub open spec fn spec_take(attrs: Seq<AttrShape>, sel: Option<u64>) -> Option<
    (Option<VariantMark>, Seq<AttrShape>),
>
    decreases attrs.len(),
{
    if attrs.len() == 0 {
        Some((None, Seq::empty()))
    } else {
        match spec_take(attrs.drop_last(), sel) {
            None => None,
            Some(acc) => match attrs.last() {
                AttrShape::Unrelated(_) => Some((acc.0, acc.1.push(attrs.last()))),
                AttrShape::VariantBare => Some(
                    (Some(VariantMark { selector: None, label: None }), acc.1),
                ),
                AttrShape::VariantGroup(shape) => match spec_parse_label(shape) {
                    MarkParse::Invalid => None,
                    MarkParse::Parsed(m) => if m.selector == sel {
                        Some((Some(m), acc.1))
                    } else {
                        Some((acc.0, acc.1.push(attrs.last())))
                    },
                },
            },
        }
    }
}

proof fn lemma_take_none_extends(attrs: Seq<AttrShape>, sel: Option<u64>, i: int)
    requires
        0 <= i <= attrs.len(),
        spec_take(attrs.subrange(0, i), sel) is None,
    ensures
        spec_take(attrs, sel) is None,
    decreases attrs.len() - i,
{
    if i < attrs.len() {
        assert(attrs.subrange(0, i + 1).drop_last() =~= attrs.subrange(0, i));
        lemma_take_none_extends(attrs, sel, i + 1);
    } else {
        assert(attrs.subrange(0, i) =~= attrs);
    }
}

fn opt_eq(a: Option<u64>, b: Option<u64>) -> (r: bool)
    ensures
        r == (a == b),
{
    match (a, b) {
        (None, None) => true,
        (Some(x), Some(y)) => x == y,
        _ => false,
    }
}

/// Takes the variant mark addressed to `sel` off an attribute list,
/// as `spec_take` says.
pub fn take_variant_label(attrs: &Vec<AttrShape>, sel: Option<u64>) -> (r: Option<
    (Option<VariantMark>, Vec<AttrShape>),
>)
    ensures
        (match (spec_take(attrs@, sel), r) {
            (Some(s), Some(e)) => e.0 == s.0 && e.1@ == s.1,
            (None, None) => true,
            _ => false,
        }),
{
    let mut mark: Option<VariantMark> = None;
    let mut kept: Vec<AttrShape> = Vec::new();
    let mut i: usize = 0;
    proof {
        assert(attrs@.subrange(0, 0) =~= Seq::<AttrShape>::empty());
    }
    while i < attrs.len()
        invariant
            0 <= i <= attrs@.len(),
            spec_take(attrs@.subrange(0, i as int), sel) == Some((mark, kept@)),
        decreases attrs@.len() - i,
    {
        let a = attrs[i];
        proof {
            assert(attrs@.subrange(0, i + 1).drop_last() =~= attrs@.subrange(0, i as int));
            assert(attrs@.subrange(0, i + 1).last() == a);
        }
        match a {
            AttrShape::Unrelated(_) => {
                kept.push(a);
            },
            AttrShape::VariantBare => {
                mark = Some(VariantMark { selector: None, label: None });
            },
            AttrShape::VariantGroup(shape) => match parse_variant_label(shape) {
                MarkParse::Invalid => {
                    proof {
                        lemma_take_none_extends(attrs@, sel, i + 1);
                    }
                    return None;
                },
                MarkParse::Parsed(m) => {
                    if opt_eq(m.selector, sel) {
                        mark = Some(m);
                    } else {
                        kept.push(a);
                    }
                },
            },
        }
        i = i + 1;
    }
    proof {
        assert(attrs@.subrange(0, attrs@.len() as int) =~= attrs@);
    }
    Some((mark, kept))
}

/// The first index in an association list carrying the label, read
/// front to back.
pub open spec fn spec_lookup(seen: Seq<(u64, int)>, l: u64) -> Option<int>
    decreases seen.len(),
{
    if seen.len() == 0 {
        None
    } else if seen.first().0 == l {
        Some(seen.first().1)
    } else {
        spec_lookup(seen.drop_first(), l)
    }
}

proof fn lemma_lookup_at(seen: Seq<(u64, int)>, l: u64, p: int)
    requires
        0 <= p < seen.len(),
        seen[p].0 == l,
        forall|j: int| 0 <= j < p ==> seen[j].0 != l,
    ensures
        spec_lookup(seen, l) == Some(seen[p].1),
    decreases p,
{
    if p > 0 {
        let t = seen.drop_first();
        assert(forall|j: int| 0 <= j < p - 1 ==> t[j].0 != l);
        lemma_lookup_at(t, l, p - 1);
    }
}

proof fn lemma_lookup_absent(seen: Seq<(u64, int)>, l: u64)
    requires
        forall|j: int| 0 <= j < seen.len() ==> seen[j].0 != l,
    ensures
        spec_lookup(seen, l) is None,
    decreases seen.len(),
{
    if seen.len() > 0 {
        let t = seen.drop_first();
        assert(forall|j: int| 0 <= j < t.len() ==> t[j].0 != l);
        lemma_lookup_absent(t, l);
    }
}

/// The index each marked expression takes, in visit order: a label
/// seen before reuses that label's index; a fresh label or an
/// unlabeled mark takes the next counter and advances it.  The parts:
/// the indices, the association of labels to indices, and the counter
/// — the number of distinct variants so far.
pub open spec fn spec_assign(labels: Seq<Option<u64>>) -> (Seq<int>, Seq<(u64, int)>, int)
    decreases labels.len(),
{
    if labels.len() == 0 {
        (Seq::empty(), Seq::empty(), 0int)
    } else {
        let acc = spec_assign(labels.drop_last());
        match labels.last() {
            None => (acc.0.push(acc.2), acc.1, acc.2 + 1),
            Some(l) => match spec_lookup(acc.1, l) {
                Some(ix) => (acc.0.push(ix), acc.1, acc.2),
                None => (acc.0.push(acc.2), acc.1.push((l, acc.2)), acc.2 + 1),
            },
        }
    }
}

/// Assigns a sum-type position to each marked expression, as
/// `spec_assign` says, and counts the distinct variants.
pub fn assign_variant_indices(labels: &Vec<Option<u64>>) -> (r: (Vec<usize>, usize))
    ensures
        r.0@.len() == labels@.len(),
        r.0@.map_values(|x: usize| x as int) == spec_assign(labels@).0,
        r.1 as int == spec_assign(labels@).2,
{
    let mut out: Vec<usize> = Vec::new();
    let mut seen_l: Vec<u64> = Vec::new();
    let mut seen_i: Vec<usize> = Vec::new();
    let ghost mut gseen: Seq<(u64, int)> = Seq::empty();
    let mut next: usize = 0;
    let mut i: usize = 0;
    proof {
        assert(labels@.subrange(0, 0) =~= Seq::<Option<u64>>::empty());
        assert(out@.map_values(|x: usize| x as int) =~= Seq::<int>::empty());
    }
    while i < labels.len()
        invariant
            0 <= i <= labels@.len(),
            out@.len() == i,
            next <= i,
            seen_l@.len() == seen_i@.len(),
            gseen.len() == seen_l@.len(),
            forall|p: int|
                0 <= p < gseen.len() ==> #[trigger] gseen[p] == (seen_l@[p], seen_i@[p] as int),
            out@.map_values(|x: usize| x as int) == spec_assign(labels@.subrange(0, i as int)).0,
            gseen == spec_assign(labels@.subrange(0, i as int)).1,
            next as int == spec_assign(labels@.subrange(0, i as int)).2,
        decreases labels@.len() - i,
    {
        let lab = labels[i];
        proof {
            assert(labels@.subrange(0, i + 1).drop_last() =~= labels@.subrange(0, i as int));
            assert(labels@.subrange(0, i + 1).last() == lab);
        }
        match lab {
            None => {
                out.push(next);
                proof {
                    assert(out@.map_values(|x: usize| x as int) =~= spec_assign(
                        labels@.subrange(0, i as int),
                    ).0.push(next as int));
                }
                next = next + 1;
            },
            Some(l) => {
                let mut p: usize = 0;
                let mut found: Option<usize> = None;
                loop
                    invariant_except_break
                        found is None,
                    invariant
                        0 <= p <= seen_l@.len(),
                        forall|j: int| 0 <= j < p ==> seen_l@[j] != l,
                    ensures
                        (match found {
                            Some(q) => q < seen_l@.len() && seen_l@[q as int] == l && forall|
                                j: int,
                            | 0 <= j < q ==> seen_l@[j] != l,
                            None => forall|j: int| 0 <= j < seen_l@.len() ==> seen_l@[j] != l,
                        }),
                    decreases seen_l@.len() - p,
                {
                    if p >= seen_l.len() {
                        break;
                    }
                    if seen_l[p] == l {
                        found = Some(p);
                        break;
                    }
                    p = p + 1;
                }
                match found {
                    Some(q) => {
                        let ix = seen_i[q];
                        proof {
                            assert forall|j: int| 0 <= j < q implies gseen[j].0 != l by {
                                assert(gseen[j] == (seen_l@[j], seen_i@[j] as int));
                            };
                            assert(gseen[q as int].0 == l);
                            lemma_lookup_at(gseen, l, q as int);
                        }
                        out.push(ix);
                        proof {
                            assert(out@.map_values(|x: usize| x as int) =~= spec_assign(
                                labels@.subrange(0, i as int),
                            ).0.push(ix as int));
                        }
                    },
                    None => {
                        proof {
                            assert forall|j: int| 0 <= j < gseen.len() implies gseen[j].0 != l by {
                                assert(gseen[j] == (seen_l@[j], seen_i@[j] as int));
                            };
                            lemma_lookup_absent(gseen, l);
                        }
                        out.push(next);
                        seen_l.push(l);
                        seen_i.push(next);
                        proof {
                            assert(out@.map_values(|x: usize| x as int) =~= spec_assign(
                                labels@.subrange(0, i as int),
                            ).0.push(next as int));
                            gseen = gseen.push((l, next as int));
                        }
                        next = next + 1;
                    },
                }
            },
        }
        i = i + 1;
    }
    proof {
        assert(labels@.subrange(0, labels@.len() as int) =~= labels@);
    }
    (out, next)
}


/// What follows the optional selector in the sum attribute's argument.
#[derive(Clone, Copy, Debug, PartialEq, Eq)]
pub enum SumTail {
    ImplTrait { has_generics: bool, for_prefix: Option<u64> },
    Prefix(u64),
    Hole,
    HoleWithExtra,
}

/// The whole argument of the sum attribute: empty, or a selector
/// before a tail.
#[derive(Clone, Copy, Debug, PartialEq, Eq)]
pub enum SumArgsShape {
    Empty,
    WithTail { selector: Option<u64>, tail: SumTail },
}

/// The parsed argument of the sum attribute.
#[derive(Clone, Copy, Debug, PartialEq, Eq)]
pub struct SumArgs {
    pub selector: Option<u64>,
    pub has_impl_generics: bool,
    pub has_trait_path: bool,
    pub enum_prefix: Option<u64>,
}

/// What each shape of the sum attribute's argument parses to: nothing
/// leaves everything unset; an impl head names the trait to implement,
/// with optional generics and an optional predefined-enum prefix; a
/// lone name is a prefix alone; a hole closes the argument; a hole
/// followed by anything is refused.
pub open spec fn spec_sum_args(shape: SumArgsShape) -> Option<SumArgs> {
    match shape {
        SumArgsShape::Empty => Some(
            SumArgs {
                selector: None,
                has_impl_generics: false,
                has_trait_path: false,
                enum_prefix: None,
            },
        ),
        SumArgsShape::WithTail { selector, tail } => match tail {
            SumTail::ImplTrait { has_generics, for_prefix } => Some(
                SumArgs {
                    selector,
                    has_impl_generics: has_generics,
                    has_trait_path: true,
                    enum_prefix: for_prefix,
                },
            ),
            SumTail::Prefix(p) => Some(
                SumArgs {
                    selector,
                    has_impl_generics: false,
                    has_trait_path: false,
                    enum_prefix: Some(p),
                },
            ),
            SumTail::Hole => Some(
                SumArgs {
                    selector,
                    has_impl_generics: false,
                    has_trait_path: false,
                    enum_prefix: None,
                },
            ),
            SumTail::HoleWithExtra => None,
        },
    }
}

/// Parses the sum attribute's argument, as `spec_sum_args` says.
pub fn parse_sum_args(shape: SumArgsShape) -> (r: Option<SumArgs>)
    ensures
        r == spec_sum_args(shape),
{
    match shape {
        SumArgsShape::Empty => Some(
            SumArgs {
                selector: None,
                has_impl_generics: false,
                has_trait_path: false,
                enum_prefix: None,
            },
        ),
        SumArgsShape::WithTail { selector, tail } => match tail {
            SumTail::ImplTrait { has_generics, for_prefix } => Some(
                SumArgs {
                    selector,
                    has_impl_generics: has_generics,
                    has_trait_path: true,
                    enum_prefix: for_prefix,
                },
            ),
            SumTail::Prefix(p) => Some(
                SumArgs {
                    selector,
                    has_impl_generics: false,
                    has_trait_path: false,
                    enum_prefix: Some(p),
                },
            ),
            SumTail::Hole => Some(
                SumArgs {
                    selector,
                    has_impl_generics: false,
                    has_trait_path: false,
                    enum_prefix: None,
                },
            ),
            SumTail::HoleWithExtra => None,
        },
    }
}

/// What the function under the sum attribute declares to return, where
/// no trait path was given: a function-family bound, some other trait
/// bound, or no impl-trait return at all.
#[derive(Clone, Copy, Debug, PartialEq, Eq)]
pub enum RetBound {
    FnFamily,
    OtherTrait,
    NotImplTrait,
}

/// What the sum attribute decides for one function: the position each
/// marked expression takes, the arity of the collecting enum, whether
/// that enum is generated on the spot or taken from a predefined
/// family, and whether the generated impl carries an argument-tuple
/// generic for a function-family trait.
pub struct SumPlan {
    pub indices: Vec<usize>,
    pub arity: usize,
    pub generated_enum: bool,
    pub adds_args_generic: bool,
}

/// Collects a function's marked exit values into one sum type: parses
/// the attribute argument, assigns a position to every mark, and
/// settles the collecting enum.  A malformed argument refuses; so does
/// a generated enum with neither a trait path nor an impl-trait
/// return to infer one from.
pub fn sum(args: SumArgsShape, ret: RetBound, labels: &Vec<Option<u64>>) -> (r: Option<SumPlan>)
    ensures
        (match spec_sum_args(args) {
            None => r is None,
            Some(a) => {
                if a.enum_prefix is None && !a.has_trait_path && ret == RetBound::NotImplTrait {
                    r is None
                } else {
                    match r {
                        Some(p) => p.indices@.map_values(|x: usize| x as int) == spec_assign(
                            labels@,
                        ).0 && p.arity as int == spec_assign(labels@).2 && p.generated_enum == (
                        a.enum_prefix is None) && p.adds_args_generic == (a.enum_prefix is None
                            && (a.has_impl_generics || (!a.has_trait_path && ret
                            == RetBound::FnFamily))),
                        None => false,
                    }
                }
            },
        }),
{
    let parsed = parse_sum_args(args);
    let a = match parsed {
        Some(a) => a,
        None => {
            return None;
        },
    };
    let generated = match a.enum_prefix {
        None => true,
        Some(_) => false,
    };
    let no_impl_trait = match ret {
        RetBound::NotImplTrait => true,
        _ => false,
    };
    let fn_family = match ret {
        RetBound::FnFamily => true,
        _ => false,
    };
    if generated && !a.has_trait_path && no_impl_trait {
        return None;
    }
    let assigned = assign_variant_indices(labels);
    Some(
        SumPlan {
            indices: assigned.0,
            arity: assigned.1,
            generated_enum: generated,
            adds_args_generic: generated && (a.has_impl_generics || (!a.has_trait_path
                && fn_family)),
        },
    )
}

/// Rewrites each try site of a function into a match that returns its
/// error as one more unlabeled variant mark: one mark per site, in
/// order, for `sum` to collect.
pub fn sum_err(n_try_sites: usize) -> (r: Vec<Option<u64>>)
    ensures
        r@.len() == n_try_sites,
        forall|i: int| 0 <= i < r@.len() ==> r@[i] is None,
{
    let mut out: Vec<Option<u64>> = Vec::new();
    let mut i: usize = 0;
    while i < n_try_sites
        invariant
            0 <= i <= n_try_sites,
            out@.len() == i,
            forall|j: int| 0 <= j < out@.len() ==> out@[j] is None,
        decreases n_try_sites - i,
    {
        out.push(None);
        i = i + 1;
    }
    out
}

} // verus!
