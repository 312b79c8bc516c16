//! Query filters (the subset of MongoDB filter documents the handlers
//! build), how two filters combine, and what a filter means.
use vstd::prelude::*;
use crate::value::{lemma_values_view, lookup_value, seq_contains_value, value_eq, values_view, FieldV, Value, ValueV};

verus! {

/// What a single-field condition demands of the field.
pub enum Test {
    /// `{field: v}`
    Eq(Value),
    /// `{field: {"$in": [..]}}`
    In(Vec<Value>),
    /// `{field: {"$regex": p, "$options": "i"}}`, or, negated,
    /// `{field: {"$not": {"$regex": p, "$options": "i"}}}`.
    Regex { pattern: String, negate: bool },
    /// `{field: {"$gte": a, "$lt": b, "$lte": c}}` with the bounds present.
    Range { gte: Option<Value>, lt: Option<Value>, lte: Option<Value> },
}

/// A condition on one named field.
pub struct Cond {
    pub field: String,
    pub test: Test,
}

/// A filter document.
pub enum Filter {
    /// A document of field conditions, all of which must hold; the empty
    /// document matches everything.
    Doc(Vec<Cond>),
    /// `{"$and": [a, b]}`
    And(Box<Filter>, Box<Filter>),
    /// `{"$or": [{c1}, {c2}, ..]}`: one of the conditions must hold.
    AnyOf(Vec<Cond>),
    /// `{"$or": [a, b]}`: one of two filters must hold.
    Either(Box<Filter>, Box<Filter>),
}

/// View of a test.
#[verifier::ext_equal]
pub enum TestV {
    Eq(ValueV),
    In(Seq<ValueV>),
    Regex { pattern: Seq<char>, negate: bool },
    Range { gte: Option<ValueV>, lt: Option<ValueV>, lte: Option<ValueV> },
}

/// View of a condition.
#[verifier::ext_equal]
pub struct CondV {
    pub field: Seq<char>,
    pub test: TestV,
}

/// View of a filter.
#[verifier::ext_equal]
pub enum FilterV {
    Doc(Seq<CondV>),
    And(Box<FilterV>, Box<FilterV>),
    AnyOf(Seq<CondV>),
    Either(Box<FilterV>, Box<FilterV>),
}

/// View of an optional value.
pub open spec fn opt_view(v: Option<Value>) -> Option<ValueV> {
    match v {
        Some(x) => Some(x@),
        None => None,
    }
}

impl View for Test {
    type V = TestV;

    open spec fn view(&self) -> TestV {
        match self {
            Test::Eq(v) => TestV::Eq(v@),
            Test::In(vs) => TestV::In(values_view(vs@)),
            Test::Regex { pattern, negate } => TestV::Regex { pattern: pattern@, negate: *negate },
            Test::Range { gte, lt, lte } => TestV::Range {
                gte: opt_view(*gte),
                lt: opt_view(*lt),
                lte: opt_view(*lte),
            },
        }
    }
}

impl View for Cond {
    type V = CondV;

    open spec fn view(&self) -> CondV {
        CondV { field: self.field@, test: self.test@ }
    }
}

/// View of a filter.
pub open spec fn filter_view(f: Filter) -> FilterV
    decreases f,
{
    match f {
        Filter::Doc(cs) => FilterV::Doc(conds_view(cs@)),
        Filter::And(a, b) => FilterV::And(Box::new(filter_view(*a)), Box::new(filter_view(*b))),
        Filter::AnyOf(cs) => FilterV::AnyOf(conds_view(cs@)),
        Filter::Either(a, b) => FilterV::Either(Box::new(filter_view(*a)), Box::new(filter_view(*b))),
    }
}

/// Views of a sequence of conditions.
pub open spec fn conds_view(cs: Seq<Cond>) -> Seq<CondV> {
    cs.map_values(|c: Cond| c@)
}

impl View for Filter {
    type V = FilterV;

    open spec fn view(&self) -> FilterV {
        filter_view(*self)
    }
}

/// Whether the filter matches the record `r`, given what a single field
/// condition means (`leaf`).
pub open spec fn filter_holds<R>(f: FilterV, r: R, leaf: spec_fn(CondV, R) -> bool) -> bool
    decreases f,
{
    match f {
        FilterV::Doc(cs) => all_hold(cs, r, leaf),
        FilterV::And(a, b) => filter_holds(*a, r, leaf) && filter_holds(*b, r, leaf),
        FilterV::AnyOf(cs) => any_holds(cs, r, leaf),
        FilterV::Either(a, b) => filter_holds(*a, r, leaf) || filter_holds(*b, r, leaf),
    }
}

/// Every condition holds.
pub open spec fn all_hold<R>(cs: Seq<CondV>, r: R, leaf: spec_fn(CondV, R) -> bool) -> bool {
    forall|i: int| 0 <= i < cs.len() ==> #[trigger] leaf(cs[i], r)
}

/// Some condition holds.
pub open spec fn any_holds<R>(cs: Seq<CondV>, r: R, leaf: spec_fn(CondV, R) -> bool) -> bool {
    exists|i: int| 0 <= i < cs.len() && #[trigger] leaf(cs[i], r)
}

/// The empty filter document, which matches everything.
pub open spec fn is_empty_filter(f: FilterV) -> bool {
    f matches FilterV::Doc(cs) && cs.len() == 0
}

/// `combine_filters` on views: the one that is not empty, or `$and` of both.
pub open spec fn combine_spec(a: FilterV, b: FilterV) -> FilterV {
    if is_empty_filter(b) {
        a
    } else if is_empty_filter(a) {
        b
    } else {
        FilterV::And(Box::new(a), Box::new(b))
    }
}

/// Meaning of equality and membership conditions on a record of scalar
/// fields: `{f: v}` holds when field `f` is present and equals `v`,
/// `{f: {"$in": vs}}` when it is present and equals one of `vs`. Other
/// conditions do not hold under this reading.
pub open spec fn eq_in_leaf(c: CondV, r: Seq<FieldV>) -> bool {
    match c.test {
        TestV::Eq(v) => lookup_value(r, c.field) matches Some(x) && value_eq(x, v),
        TestV::In(vs) => lookup_value(r, c.field) matches Some(x) && seq_contains_value(vs, x),
        _ => false,
    }
}

/// A bound of a range condition admits the timestamp `x` by `ok` when it
/// is a timestamp, and there is no bound; any other bound admits nothing.
pub open spec fn time_bound(b: Option<ValueV>, x: i64, ok: spec_fn(i64, i64) -> bool) -> bool {
    match b {
        Some(ValueV::DateTime(t)) => ok(x, t),
        Some(_) => false,
        None => true,
    }
}

/// Meaning of conditions on a record of scalar fields: equality and
/// membership as `eq_in_leaf`; a range condition holds when the field holds
/// a timestamp at or after its `$gte`, before its `$lt` and at or before
/// its `$lte` (each a timestamp, when given).
pub open spec fn scalar_leaf(c: CondV, r: Seq<FieldV>) -> bool {
    match c.test {
        TestV::Range { gte, lt, lte } => {
            &&& lookup_value(r, c.field) matches Some(ValueV::DateTime(x))
            &&& time_bound(gte, x, |x: i64, t: i64| t <= x)
            &&& time_bound(lt, x, |x: i64, t: i64| x < t)
            &&& time_bound(lte, x, |x: i64, t: i64| x <= t)
        },
        _ => eq_in_leaf(c, r),
    }
}

/// The field holds text that the pattern matches, under the pattern
/// language `matches` (text, pattern).
pub open spec fn text_matches(r: Seq<FieldV>, field: Seq<char>, pattern: Seq<char>, matches: spec_fn(Seq<char>, Seq<char>) -> bool) -> bool {
    lookup_value(r, field) matches Some(ValueV::Str(t)) && matches(t, pattern)
}

/// Meaning of regex conditions under a pattern language `matches`: the
/// field holds text the pattern matches (or, negated, does not match);
/// other conditions as `eq_in_leaf`.
pub open spec fn regex_leaf(c: CondV, r: Seq<FieldV>, matches: spec_fn(Seq<char>, Seq<char>) -> bool) -> bool {
    match c.test {
        TestV::Regex { pattern, negate } => lookup_value(r, c.field) matches Some(ValueV::Str(t)) && (matches(
            t,
            pattern,
        ) != negate),
        _ => eq_in_leaf(c, r),
    }
}

/// A document made of two parts holds exactly when both parts do.
pub proof fn lemma_all_hold_concat<R>(a: Seq<CondV>, b: Seq<CondV>, r: R, leaf: spec_fn(CondV, R) -> bool)
    ensures
        all_hold(a + b, r, leaf) <==> all_hold(a, r, leaf) && all_hold(b, r, leaf),
{
    if all_hold(a, r, leaf) && all_hold(b, r, leaf) {
        assert forall|i: int| 0 <= i < (a + b).len() implies #[trigger] leaf((a + b)[i], r) by {
            if i >= a.len() {
                assert((a + b)[i] == b[i - a.len()]);
            }
        }
    }
    if all_hold(a + b, r, leaf) {
        assert forall|i: int| 0 <= i < a.len() implies #[trigger] leaf(a[i], r) by {
            assert((a + b)[i] == a[i]);
        }
        assert forall|i: int| 0 <= i < b.len() implies #[trigger] leaf(b[i], r) by {
            assert((a + b)[i + a.len()] == b[i]);
        }
    }
}

/// A document of one condition holds exactly when the condition does; the
/// empty document always holds.
pub proof fn lemma_all_hold_small<R>(c: CondV, r: R, leaf: spec_fn(CondV, R) -> bool)
    ensures
        all_hold(seq![c], r, leaf) <==> leaf(c, r),
        all_hold(Seq::<CondV>::empty(), r, leaf),
{
    if leaf(c, r) {
        assert forall|i: int| 0 <= i < seq![c].len() implies #[trigger] leaf(seq![c][i], r) by {}
    }
    assert(seq![c][0] == c);
}

impl Filter {
    /// The empty filter document.
    pub fn all() -> (f: Filter)
        ensures
            is_empty_filter(f@),
            f@ == FilterV::Doc(seq![]),
    {
        let f = Filter::Doc(Vec::new());
        assert(f@ matches FilterV::Doc(cs) && cs =~= seq![]);
        f
    }

    /// Whether this is the empty filter document.
    pub fn is_empty(&self) -> (r: bool)
        ensures
            r == is_empty_filter(self@),
    {
        match self {
            Filter::Doc(cs) => cs.len() == 0,
            _ => false,
        }
    }

    /// A document holding the single condition `c`.
    pub fn single(c: Cond) -> (f: Filter)
        ensures
            f@ == FilterV::Doc(seq![c@]),
    {
        let mut cs: Vec<Cond> = Vec::new();
        cs.push(c);
        let f = Filter::Doc(cs);
        assert(f@ matches FilterV::Doc(v) && v =~= seq![c@]);
        f
    }

    /// This document with one more field condition (`Document::insert` of a
    /// field the document does not hold yet).
    pub fn with_cond(self, c: Cond) -> (f: Filter)
        requires
            self@ is Doc,
        ensures
            f@ == FilterV::Doc(self@->Doc_0.push(c@)),
    {
        match self {
            Filter::Doc(mut cs) => {
                let ghost old_cs = cs@;
                cs.push(c);
                let f = Filter::Doc(cs);
                assert(f@ matches FilterV::Doc(v) && v =~= old_cs.map_values(|x: Cond| x@).push(c@));
                f
            },
            Filter::And(a, b) => Filter::And(a, b),
            Filter::AnyOf(cs) => Filter::AnyOf(cs),
            Filter::Either(a, b) => Filter::Either(a, b),
        }
    }
}

/// A copy of an optional value.
fn duplicate_opt(v: &Option<Value>) -> (r: Option<Value>)
    ensures
        opt_view(r) == opt_view(*v),
{
    match v {
        Some(x) => Some(x.duplicate()),
        None => None,
    }
}

/// A copy of a list of values.
fn duplicate_values(vs: &Vec<Value>) -> (r: Vec<Value>)
    ensures
        values_view(r@) == values_view(vs@),
{
    let mut out: Vec<Value> = Vec::new();
    let mut i: usize = 0;
    while i < vs.len()
        invariant
            i <= vs.len(),
            out@.len() == i,
            forall|k: int| 0 <= k < i ==> (#[trigger] out@[k])@ == vs@[k]@,
        decreases vs.len() - i,
    {
        out.push(vs[i].duplicate());
        i = i + 1;
    }
    proof {
        lemma_values_view(vs@);
        lemma_values_view(out@);
        assert(values_view(out@) =~= values_view(vs@));
    }
    out
}

impl Test {
    /// A copy of this test.
    pub fn duplicate(&self) -> (r: Test)
        ensures
            r@ == self@,
    {
        match self {
            Test::Eq(v) => Test::Eq(v.duplicate()),
            Test::In(vs) => Test::In(duplicate_values(vs)),
            Test::Regex { pattern, negate } => Test::Regex { pattern: pattern.clone(), negate: *negate },
            Test::Range { gte, lt, lte } => Test::Range {
                gte: duplicate_opt(gte),
                lt: duplicate_opt(lt),
                lte: duplicate_opt(lte),
            },
        }
    }
}

impl Cond {
    /// A copy of this condition.
    pub fn duplicate(&self) -> (r: Cond)
        ensures
            r@ == self@,
    {
        Cond { field: self.field.clone(), test: self.test.duplicate() }
    }
}

/// A copy of a list of conditions.
fn duplicate_conds(cs: &Vec<Cond>) -> (r: Vec<Cond>)
    ensures
        conds_view(r@) == conds_view(cs@),
{
    let mut out: Vec<Cond> = Vec::new();
    let mut i: usize = 0;
    while i < cs.len()
        invariant
            i <= cs.len(),
            out@.len() == i,
            forall|k: int| 0 <= k < i ==> (#[trigger] out@[k])@ == cs@[k]@,
        decreases cs.len() - i,
    {
        out.push(cs[i].duplicate());
        i = i + 1;
    }
    assert(conds_view(out@) =~= conds_view(cs@));
    out
}

impl Filter {
    /// A copy of this filter.
    pub fn duplicate(&self) -> (r: Filter)
        ensures
            r@ == self@,
        decreases self,
    {
        match self {
            Filter::Doc(cs) => Filter::Doc(duplicate_conds(cs)),
            Filter::And(a, b) => Filter::And(Box::new((**a).duplicate()), Box::new((**b).duplicate())),
            Filter::AnyOf(cs) => Filter::AnyOf(duplicate_conds(cs)),
            Filter::Either(a, b) => Filter::Either(Box::new((**a).duplicate()), Box::new((**b).duplicate())),
        }
    }
}

/// Merges two filters so that both are honored: an empty one gives way to
/// the other, otherwise the two are wrapped in `$and` (never merged key by
/// key, which would let one condition on a field overwrite the other's).
pub fn combine_filters(a: Filter, b: Filter) -> (f: Filter)
    ensures
        f@ == combine_spec(a@, b@),
{
    if b.is_empty() {
        a
    } else if a.is_empty() {
        b
    } else {
        Filter::And(Box::new(a), Box::new(b))
    }
}

/// Combining filters is conjunction: for any meaning of single-field
/// conditions, the combined filter matches a record exactly when both do.
pub proof fn lemma_combine_is_conjunction<R>(a: FilterV, b: FilterV, r: R, leaf: spec_fn(CondV, R) -> bool)
    ensures
        filter_holds(combine_spec(a, b), r, leaf) == (filter_holds(a, r, leaf) && filter_holds(b, r, leaf)),
{
    if is_empty_filter(b) {
    } else if is_empty_filter(a) {
    } else {
        let c = FilterV::And(Box::new(a), Box::new(b));
        assert(filter_holds(c, r, leaf) == (filter_holds(a, r, leaf) && filter_holds(b, r, leaf)));
    }
}

/// A document of one condition matches exactly when the condition holds.
pub proof fn lemma_single_doc<R>(c: CondV, r: R, leaf: spec_fn(CondV, R) -> bool)
    ensures
        filter_holds(FilterV::Doc(seq![c]), r, leaf) == leaf(c, r),
{
    let cs = seq![c];
    assert(cs[0] == c);
    assert(leaf(cs[0], r) == leaf(c, r));
    assert(filter_holds(FilterV::Doc(cs), r, leaf) == (forall|i: int| 0 <= i < cs.len() ==> #[trigger] leaf(cs[i], r)));
    if leaf(c, r) {
        assert forall|i: int| 0 <= i < cs.len() implies #[trigger] leaf(cs[i], r) by {
            assert(i == 0);
        }
    }
}

/// The empty filter is the identity of combination.
pub proof fn lemma_combine_identity(a: FilterV)
    ensures
        combine_spec(a, FilterV::Doc(seq![])) == a,
        combine_spec(FilterV::Doc(seq![]), a) == a,
{
    if is_empty_filter(a) {
        assert(a->Doc_0 =~= seq![]);
    }
}

} // verus!
