//! Field values of stored records (a model of the BSON values the workflow
//! engine reads) and records as ordered lists of named fields.
use vstd::prelude::*;
use crate::dates::{format_day_month_year, text_day_month_year};
use crate::oid::{hex_text, Oid};
use crate::text::{chars_to_string, decimal, i32_to_string, i64_to_string, push_str, str_chars};

verus! {

broadcast use vstd::string::group_string_axioms;

/// A double-precision number: its IEEE-754 bits, and the text the workflow
/// engine shows for it (the integer part alone when it has no fraction).
#[derive(Clone)]
pub struct Float {
    pub bits: u64,
    pub text: String,
}

impl Float {
    /// A copy of this number.
    pub fn duplicate(&self) -> (r: Float)
        ensures
            r.bits == self.bits,
            r.text@ == self.text@,
    {
        Float { bits: self.bits, text: self.text.clone() }
    }
}

/// A BSON field value.
pub enum Value {
    Null,
    Bool(bool),
    Int32(i32),
    Int64(i64),
    Double(Float),
    Str(String),
    /// UTC timestamp in epoch milliseconds.
    DateTime(i64),
    ObjectId(Oid),
    /// The elements, and the value's debug text.
    Array(Vec<Value>, String),
    /// An embedded document: its fields in order, and its debug text.
    Document(Vec<(String, Value)>, String),
    /// JavaScript code with its scope document, and the value's debug text.
    CodeWithScope(String, Vec<(String, Value)>, String),
    /// Any other BSON value (binaries, regular expressions, timestamps,
    /// decimals, ...), by its debug text. None of these holds a double or a
    /// document, and the debug text tells two of them apart exactly when
    /// they differ.
    Other(String),
}

/// Mathematical view of a `Value`.
#[verifier::ext_equal]
pub enum ValueV {
    Null,
    Bool(bool),
    Int32(i32),
    Int64(i64),
    Double(u64, Seq<char>),
    Str(Seq<char>),
    DateTime(i64),
    ObjectId(Seq<u8>),
    Array(Seq<ValueV>, Seq<char>),
    Document(Seq<(Seq<char>, ValueV)>, Seq<char>),
    CodeWithScope(Seq<char>, Seq<(Seq<char>, ValueV)>, Seq<char>),
    Other(Seq<char>),
}

/// View of a value.
pub open spec fn value_view(v: Value) -> ValueV
    decreases v,
{
    match v {
        Value::Null => ValueV::Null,
        Value::Bool(b) => ValueV::Bool(b),
        Value::Int32(i) => ValueV::Int32(i),
        Value::Int64(i) => ValueV::Int64(i),
        Value::Double(f) => ValueV::Double(f.bits, f.text@),
        Value::Str(s) => ValueV::Str(s@),
        Value::DateTime(ms) => ValueV::DateTime(ms),
        Value::ObjectId(o) => ValueV::ObjectId(o.bytes@),
        Value::Array(items, text) => ValueV::Array(values_view(items@), text@),
        Value::Document(es, text) => ValueV::Document(entries_view(es@), text@),
        Value::CodeWithScope(code, es, text) => ValueV::CodeWithScope(code@, entries_view(es@), text@),
        Value::Other(t) => ValueV::Other(t@),
    }
}

/// Views of a document's fields, field by field.
pub open spec fn entries_view(s: Seq<(String, Value)>) -> Seq<(Seq<char>, ValueV)>
    decreases s,
{
    if s.len() == 0 {
        seq![]
    } else {
        entries_view(s.subrange(0, s.len() - 1)).push((s[s.len() - 1].0@, value_view(s[s.len() - 1].1)))
    }
}

/// Views of a sequence of values, element by element.
pub open spec fn values_view(s: Seq<Value>) -> Seq<ValueV>
    decreases s,
{
    if s.len() == 0 {
        seq![]
    } else {
        values_view(s.subrange(0, s.len() - 1)).push(value_view(s[s.len() - 1]))
    }
}

impl View for Value {
    type V = ValueV;

    open spec fn view(&self) -> ValueV {
        value_view(*self)
    }
}

/// The views of a value sequence have its length and its elements' views.
pub proof fn lemma_values_view(s: Seq<Value>)
    ensures
        values_view(s).len() == s.len(),
        forall|k: int| 0 <= k < s.len() ==> #[trigger] values_view(s)[k] == s[k]@,
    decreases s.len(),
{
    if s.len() > 0 {
        let p = s.subrange(0, s.len() - 1);
        lemma_values_view(p);
        assert forall|k: int| 0 <= k < s.len() implies #[trigger] values_view(s)[k] == s[k]@ by {
            if k < s.len() - 1 {
                assert(p[k] == s[k]);
            }
        }
    }
}

/// The views of a document's fields have its length and its fields' views.
pub proof fn lemma_entries_view(s: Seq<(String, Value)>)
    ensures
        entries_view(s).len() == s.len(),
        forall|k: int| 0 <= k < s.len() ==> #[trigger] entries_view(s)[k] == (s[k].0@, s[k].1@),
    decreases s.len(),
{
    if s.len() > 0 {
        let p = s.subrange(0, s.len() - 1);
        lemma_entries_view(p);
        assert forall|k: int| 0 <= k < s.len() implies #[trigger] entries_view(s)[k] == (s[k].0@, s[k].1@) by {
            if k < s.len() - 1 {
                assert(p[k] == s[k]);
            }
        }
    }
}

/// The bits are a NaN.
pub open spec fn f64_is_nan(b: u64) -> bool {
    (b & 0x7ff0_0000_0000_0000u64) == 0x7ff0_0000_0000_0000u64 && (b & 0x000f_ffff_ffff_ffffu64) != 0
}

/// The bits are +0.0 or -0.0.
pub open spec fn f64_is_zero(b: u64) -> bool {
    (b & 0x7fff_ffff_ffff_ffffu64) == 0
}

/// IEEE-754 equality of two doubles given by their bits: NaN equals
/// nothing, the two zeros are equal, otherwise equal bits.
pub open spec fn f64_eq(a: u64, b: u64) -> bool {
    !f64_is_nan(a) && !f64_is_nan(b) && (a == b || (f64_is_zero(a) && f64_is_zero(b)))
}

/// The key by which ordering conditions compare a double, given its bits:
/// negative doubles map below positive ones, larger magnitudes further out,
/// so that the keys of two non-NaN doubles compare as the doubles do
/// (negative zero counts as zero); a NaN has no key.
pub open spec fn double_rank_spec(b: u64) -> Option<u64> {
    if f64_is_nan(b) {
        None
    } else if f64_is_zero(b) {
        Some(0x8000_0000_0000_0000u64)
    } else if b >= 0x8000_0000_0000_0000u64 {
        Some((u64::MAX - b) as u64)
    } else {
        Some((b + 0x8000_0000_0000_0000u64) as u64)
    }
}

/// The ordering key of a double, given its bits.
pub fn double_rank(bits: u64) -> (r: Option<u64>)
    ensures
        r == double_rank_spec(bits),
{
    if (bits & 0x7ff0_0000_0000_0000u64) == 0x7ff0_0000_0000_0000u64 && (bits & 0x000f_ffff_ffff_ffffu64) != 0 {
        None
    } else if (bits & 0x7fff_ffff_ffff_ffffu64) == 0 {
        Some(0x8000_0000_0000_0000u64)
    } else if bits >= 0x8000_0000_0000_0000u64 {
        Some(u64::MAX - bits)
    } else {
        Some(bits + 0x8000_0000_0000_0000u64)
    }
}

/// Equality of BSON values (`Bson`'s `==`): same variant and equal contents,
/// doubles by IEEE equality, arrays element by element, documents as maps
/// (as many fields, each equal to the other's field of that name, in any
/// order). The remaining values compare by their debug text.
pub open spec fn value_eq(a: ValueV, b: ValueV) -> bool
    decreases a,
{
    match a {
        ValueV::Null => b is Null,
        ValueV::Bool(x) => b matches ValueV::Bool(y) && x == y,
        ValueV::Int32(x) => b matches ValueV::Int32(y) && x == y,
        ValueV::Int64(x) => b matches ValueV::Int64(y) && x == y,
        ValueV::Double(x, _) => b matches ValueV::Double(y, _) && f64_eq(x, y),
        ValueV::Str(x) => b matches ValueV::Str(y) && x == y,
        ValueV::DateTime(x) => b matches ValueV::DateTime(y) && x == y,
        ValueV::ObjectId(x) => b matches ValueV::ObjectId(y) && x == y,
        ValueV::Array(xs, _) => match b {
            ValueV::Array(ys, _) => seq_eq(xs, ys),
            _ => false,
        },
        ValueV::Document(xs, _) => match b {
            ValueV::Document(ys, _) => xs.len() == ys.len() && entries_within(xs, ys),
            _ => false,
        },
        ValueV::CodeWithScope(c, xs, _) => match b {
            ValueV::CodeWithScope(d, ys, _) => c == d && xs.len() == ys.len() && entries_within(xs, ys),
            _ => false,
        },
        ValueV::Other(x) => b matches ValueV::Other(y) && x == y,
    }
}

/// Position of the first field named `key` at or after `i`.
pub open spec fn entry_index(ys: Seq<(Seq<char>, ValueV)>, key: Seq<char>, i: int) -> Option<int>
    decreases ys.len() - i,
{
    if i < 0 || i >= ys.len() {
        None
    } else if ys[i].0 == key {
        Some(i)
    } else {
        entry_index(ys, key, i + 1)
    }
}

/// Every field of `xs` equals the field of that name in `ys`.
pub open spec fn entries_within(xs: Seq<(Seq<char>, ValueV)>, ys: Seq<(Seq<char>, ValueV)>) -> bool
    decreases xs,
{
    if xs.len() == 0 {
        true
    } else {
        &&& match entry_index(ys, xs[0].0, 0) {
            Some(j) => value_eq(xs[0].1, ys[j].1),
            None => false,
        }
        &&& entries_within(xs.subrange(1, xs.len() as int), ys)
    }
}

/// Element-wise equality of two value sequences.
pub open spec fn seq_eq(xs: Seq<ValueV>, ys: Seq<ValueV>) -> bool
    decreases xs,
{
    if xs.len() != ys.len() {
        false
    } else if xs.len() == 0 {
        true
    } else {
        value_eq(xs[0], ys[0]) && seq_eq(xs.subrange(1, xs.len() as int), ys.subrange(1, ys.len() as int))
    }
}

/// Whether `v` equals some element of `xs` (`Vec::contains`).
pub open spec fn seq_contains_value(xs: Seq<ValueV>, v: ValueV) -> bool {
    exists|i: int| 0 <= i < xs.len() && value_eq(xs[i], v)
}

/// The text the workflow engine shows for a value: strings as they are,
/// integers in decimal, doubles by their text, timestamps as `%d %b %Y`,
/// booleans as `true`/`false`, null as nothing, and other values by their
/// debug text.
pub open spec fn display(v: ValueV) -> Seq<char> {
    match v {
        ValueV::Str(s) => s,
        ValueV::Int32(i) => decimal(i as int),
        ValueV::Int64(i) => decimal(i as int),
        ValueV::Double(_, t) => t,
        ValueV::DateTime(ms) => text_day_month_year(ms),
        ValueV::Bool(b) => if b { "true"@ } else { "false"@ },
        ValueV::Null => seq![],
        ValueV::ObjectId(b) => "ObjectId(\""@ + hex_text(b) + "\")"@,
        ValueV::Array(_, t) => t,
        ValueV::Document(_, t) => t,
        ValueV::CodeWithScope(_, _, t) => t,
        ValueV::Other(t) => t,
    }
}

/// IEEE-754 equality of two doubles given by their bits.
pub fn f64_bits_eq(a: u64, b: u64) -> (r: bool)
    ensures
        r == f64_eq(a, b),
{
    let a_nan = (a & 0x7ff0_0000_0000_0000u64) == 0x7ff0_0000_0000_0000u64 && (a & 0x000f_ffff_ffff_ffffu64) != 0;
    let b_nan = (b & 0x7ff0_0000_0000_0000u64) == 0x7ff0_0000_0000_0000u64 && (b & 0x000f_ffff_ffff_ffffu64) != 0;
    let a_zero = (a & 0x7fff_ffff_ffff_ffffu64) == 0;
    let b_zero = (b & 0x7fff_ffff_ffff_ffffu64) == 0;
    !a_nan && !b_nan && (a == b || (a_zero && b_zero))
}

/// Whether two strings hold the same characters.
pub(crate) fn str_eq(a: &str, b: &str) -> (r: bool)
    ensures
        r == (a@ == b@),
{
    let x = crate::text::str_chars(a);
    let y = crate::text::str_chars(b);
    crate::grouping::chars_equal(&x, &y)
}

impl Value {
    /// BSON equality of two values.
    pub fn equals(&self, other: &Value) -> (r: bool)
        ensures
            r == value_eq(self@, other@),
        decreases self,
    {
        match self {
            Value::Null => matches!(other, Value::Null),
            Value::Bool(x) => match other {
                Value::Bool(y) => *x == *y,
                _ => false,
            },
            Value::Int32(x) => match other {
                Value::Int32(y) => *x == *y,
                _ => false,
            },
            Value::Int64(x) => match other {
                Value::Int64(y) => *x == *y,
                _ => false,
            },
            Value::Double(x) => match other {
                Value::Double(y) => f64_bits_eq(x.bits, y.bits),
                _ => false,
            },
            Value::Str(x) => match other {
                Value::Str(y) => str_eq(x.as_str(), y.as_str()),
                _ => false,
            },
            Value::DateTime(x) => match other {
                Value::DateTime(y) => *x == *y,
                _ => false,
            },
            Value::ObjectId(x) => match other {
                Value::ObjectId(y) => *x == *y,
                _ => false,
            },
            Value::Array(xs, _) => match other {
                Value::Array(ys, _) => {
                    let ghost xv = values_view(xs@);
                    let ghost yv = values_view(ys@);
                    proof {
                        lemma_values_view(xs@);
                        lemma_values_view(ys@);
                    }
                    if xs.len() != ys.len() {
                        return false;
                    }
                    let mut i: usize = 0;
                    assert(value_eq(self@, other@) == seq_eq(xv, yv));
                    assert(xv.subrange(0, xv.len() as int) =~= xv);
                    assert(yv.subrange(0, yv.len() as int) =~= yv);
                    while i < xs.len()
                        invariant
                            i <= xs.len(),
                            self is Array,
                            self->Array_0 == *xs,
                            value_eq(self@, other@) == seq_eq(xv, yv),
                            xs.len() == ys.len(),
                            xv.len() == xs.len(),
                            yv.len() == ys.len(),
                            forall|k: int| 0 <= k < xs.len() ==> xv[k] == (#[trigger] xs@[k])@,
                            forall|k: int| 0 <= k < ys.len() ==> yv[k] == (#[trigger] ys@[k])@,
                            seq_eq(xv, yv) == seq_eq(xv.subrange(i as int, xv.len() as int), yv.subrange(i as int, yv.len() as int)),
                        decreases xs.len() - i,
                    {
                        let ghost xr = xv.subrange(i as int, xv.len() as int);
                        let ghost yr = yv.subrange(i as int, yv.len() as int);
                        assert(xr.subrange(1, xr.len() as int) =~= xv.subrange(i + 1, xv.len() as int));
                        assert(yr.subrange(1, yr.len() as int) =~= yv.subrange(i + 1, yv.len() as int));
                        assert(xr[0] == xs@[i as int]@);
                        assert(yr[0] == ys@[i as int]@);
                        proof {
                            assert(*xs == self->Array_0);
                            assert(decreases_to!(*self => self->Array_0));
                            assert(decreases_to!(*xs => xs@));
                            assert(decreases_to!(xs@ => xs@[i as int]));
                        }
                        if !xs[i].equals(&ys[i]) {
                            assert(!seq_eq(xr, yr));
                            return false;
                        }
                        i = i + 1;
                    }
                    assert(xv.subrange(i as int, xv.len() as int) =~= Seq::<ValueV>::empty());
                    assert(yv.subrange(i as int, yv.len() as int) =~= Seq::<ValueV>::empty());
                    true
                },
                _ => false,
            },
            Value::Document(xs, _) => match other {
                Value::Document(ys, _) => {
                    proof {
                        assert(decreases_to!(*self => self->Document_0));
                    }
                    entries_equal(xs, ys)
                },
                _ => false,
            },
            Value::CodeWithScope(c, xs, _) => match other {
                Value::CodeWithScope(d, ys, _) => {
                    proof {
                        assert(decreases_to!(*self => self->CodeWithScope_1));
                    }
                    str_eq(c.as_str(), d.as_str()) && entries_equal(xs, ys)
                },
                _ => false,
            },
            Value::Other(x) => match other {
                Value::Other(y) => str_eq(x.as_str(), y.as_str()),
                _ => false,
            },
        }
    }

    /// A copy of this value.
    pub fn duplicate(&self) -> (r: Value)
        ensures
            r@ == self@,
        decreases self,
    {
        match self {
            Value::Null => Value::Null,
            Value::Bool(b) => Value::Bool(*b),
            Value::Int32(i) => Value::Int32(*i),
            Value::Int64(i) => Value::Int64(*i),
            Value::Double(f) => Value::Double(Float { bits: f.bits, text: f.text.clone() }),
            Value::Str(s) => Value::Str(s.clone()),
            Value::DateTime(ms) => Value::DateTime(*ms),
            Value::ObjectId(o) => Value::ObjectId(*o),
            Value::Array(xs, t) => {
                let mut ys: Vec<Value> = Vec::new();
                let mut i: usize = 0;
                while i < xs.len()
                    invariant
                        i <= xs.len(),
                        self is Array,
                        self->Array_0 == *xs,
                        ys@.len() == i,
                        forall|k: int| 0 <= k < i ==> (#[trigger] ys@[k])@ == xs@[k]@,
                    decreases xs.len() - i,
                {
                    proof {
                        assert(decreases_to!(*self => self->Array_0));
                        assert(decreases_to!(*xs => xs@));
                        assert(decreases_to!(xs@ => xs@[i as int]));
                    }
                    ys.push(xs[i].duplicate());
                    i = i + 1;
                }
                proof {
                    lemma_values_view(xs@);
                    lemma_values_view(ys@);
                    assert(values_view(ys@) =~= values_view(xs@));
                }
                Value::Array(ys, t.clone())
            },
            Value::Document(es, t) => {
                proof {
                    assert(decreases_to!(*self => self->Document_0));
                }
                Value::Document(duplicate_entries(es), t.clone())
            },
            Value::CodeWithScope(c, es, t) => {
                proof {
                    assert(decreases_to!(*self => self->CodeWithScope_1));
                }
                Value::CodeWithScope(c.clone(), duplicate_entries(es), t.clone())
            },
            Value::Other(t) => Value::Other(t.clone()),
        }
    }

    /// The text the workflow engine shows for this value.
    pub fn display_text(&self) -> (r: String)
        ensures
            r@ == display(self@),
    {
        match self {
            Value::Str(s) => s.clone(),
            Value::Int32(i) => i32_to_string(*i),
            Value::Int64(i) => i64_to_string(*i),
            Value::Double(f) => f.text.clone(),
            Value::DateTime(ms) => format_day_month_year(*ms),
            Value::Bool(b) => if *b { "true".to_string() } else { "false".to_string() },
            Value::Null => String::new(),
            Value::ObjectId(o) => {
                let mut out = str_chars("ObjectId(\"");
                let h = o.to_hex();
                push_str(&mut out, h.as_str());
                push_str(&mut out, "\")");
                chars_to_string(&out)
            },
            Value::Array(_, t) => t.clone(),
            Value::Document(_, t) => t.clone(),
            Value::CodeWithScope(_, _, t) => t.clone(),
            Value::Other(t) => t.clone(),
        }
    }
}

/// The position of the first field of `ys` named `key`.
fn find_entry(ys: &Vec<(String, Value)>, key: &String) -> (r: Option<usize>)
    ensures
        match entry_index(entries_view(ys@), key@, 0) {
            Some(j) => r matches Some(k) && k == j,
            None => r is None,
        },
        r matches Some(j) ==> j < ys.len(),
{
    proof {
        lemma_entries_view(ys@);
    }
    let ghost yv = entries_view(ys@);
    let mut k: usize = 0;
    while k < ys.len()
        invariant
            k <= ys.len(),
            yv == entries_view(ys@),
            yv.len() == ys.len(),
            forall|m: int| 0 <= m < ys.len() ==> #[trigger] yv[m] == (ys@[m].0@, ys@[m].1@),
            entry_index(yv, key@, 0) == entry_index(yv, key@, k as int),
        decreases ys.len() - k,
    {
        if str_eq(ys[k].0.as_str(), key.as_str()) {
            assert(yv[k as int] == (ys@[k as int].0@, ys@[k as int].1@));
            return Some(k);
        }
        assert(yv[k as int] == (ys@[k as int].0@, ys@[k as int].1@));
        k = k + 1;
    }
    None
}

/// Whether two documents are equal as maps: as many fields, and each field
/// of `xs` equal to the field of that name in `ys`.
fn entries_equal(xs: &Vec<(String, Value)>, ys: &Vec<(String, Value)>) -> (r: bool)
    ensures
        r == (entries_view(xs@).len() == entries_view(ys@).len() && entries_within(entries_view(xs@), entries_view(ys@))),
    decreases xs,
{
    proof {
        lemma_entries_view(xs@);
        lemma_entries_view(ys@);
    }
    let ghost xv = entries_view(xs@);
    let ghost yv = entries_view(ys@);
    if xs.len() != ys.len() {
        return false;
    }
    assert(xv.subrange(0, xv.len() as int) =~= xv);
    let mut i: usize = 0;
    while i < xs.len()
        invariant
            i <= xs.len(),
            xv == entries_view(xs@),
            yv == entries_view(ys@),
            xv.len() == xs.len(),
            yv.len() == ys.len(),
            forall|m: int| 0 <= m < xs.len() ==> #[trigger] xv[m] == (xs@[m].0@, xs@[m].1@),
            forall|m: int| 0 <= m < ys.len() ==> #[trigger] yv[m] == (ys@[m].0@, ys@[m].1@),
            entries_within(xv, yv) == entries_within(xv.subrange(i as int, xv.len() as int), yv),
        decreases xs.len() - i,
    {
        let ghost xr = xv.subrange(i as int, xv.len() as int);
        assert(xr.subrange(1, xr.len() as int) =~= xv.subrange(i + 1, xv.len() as int));
        assert(xr[0] == xv[i as int]);
        assert(xv[i as int] == (xs@[i as int].0@, xs@[i as int].1@));
        match find_entry(ys, &xs[i].0) {
            None => {
                return false;
            },
            Some(j) => {
                proof {
                    assert(decreases_to!(*xs => xs@));
                    assert(decreases_to!(xs@ => xs@[i as int]));
                    assert(decreases_to!(xs@[i as int] => xs@[i as int].1));
                }
                let same = xs[i].1.equals(&ys[j].1);
                assert(yv[j as int] == (ys@[j as int].0@, ys@[j as int].1@));
                assert(entry_index(yv, xr[0].0, 0) == Some(j as int));
                assert(entries_within(xr, yv) == (value_eq(xr[0].1, yv[j as int].1) && entries_within(
                    xr.subrange(1, xr.len() as int),
                    yv,
                )));
                if !same {
                    return false;
                }
            },
        }
        i = i + 1;
    }
    true
}

/// A copy of a document's fields.
fn duplicate_entries(es: &Vec<(String, Value)>) -> (r: Vec<(String, Value)>)
    ensures
        entries_view(r@) == entries_view(es@),
    decreases es,
{
    let mut out: Vec<(String, Value)> = Vec::new();
    let mut i: usize = 0;
    while i < es.len()
        invariant
            i <= es.len(),
            out@.len() == i,
            forall|m: int| 0 <= m < i ==> (#[trigger] out@[m]).0@ == es@[m].0@ && out@[m].1@ == es@[m].1@,
        decreases es.len() - i,
    {
        proof {
            assert(decreases_to!(*es => es@));
            assert(decreases_to!(es@ => es@[i as int]));
            assert(decreases_to!(es@[i as int] => es@[i as int].1));
        }
        out.push((es[i].0.clone(), es[i].1.duplicate()));
        i = i + 1;
    }
    proof {
        lemma_entries_view(es@);
        lemma_entries_view(out@);
        assert(entries_view(out@) =~= entries_view(es@));
    }
    out
}

/// A named field of a record, with the comparison key that ordering
/// conditions use: `double_rank` of the field read as a double (`None`
/// when the value is not a number or a timestamp, or is NaN).
pub struct Field {
    pub key: String,
    pub value: Value,
    pub rank: Option<u64>,
}

/// View of a field.
#[verifier::ext_equal]
pub struct FieldV {
    pub key: Seq<char>,
    pub value: ValueV,
    pub rank: Option<u64>,
}

impl View for Field {
    type V = FieldV;

    open spec fn view(&self) -> FieldV {
        FieldV { key: self.key@, value: self.value@, rank: self.rank }
    }
}

/// A stored record: its fields in document order.
pub struct Record {
    pub fields: Vec<Field>,
}

impl View for Record {
    type V = Seq<FieldV>;

    open spec fn view(&self) -> Seq<FieldV> {
        self.fields@.map_values(|f: Field| f@)
    }
}

/// Position of the first field named `key` at or after `i`.
pub open spec fn find_from(r: Seq<FieldV>, key: Seq<char>, i: int) -> Option<int>
    decreases r.len() - i,
{
    if i < 0 || i >= r.len() {
        None
    } else if r[i].key == key {
        Some(i)
    } else {
        find_from(r, key, i + 1)
    }
}

/// The field named `key` (a document's keys are unique, so the first).
pub open spec fn lookup(r: Seq<FieldV>, key: Seq<char>) -> Option<FieldV> {
    match find_from(r, key, 0) {
        Some(i) => Some(r[i]),
        None => None,
    }
}

/// The value of the field named `key`.
pub open spec fn lookup_value(r: Seq<FieldV>, key: Seq<char>) -> Option<ValueV> {
    match lookup(r, key) {
        Some(f) => Some(f.value),
        None => None,
    }
}

/// The field's id, when it is present and holds an object id
/// (`Document::get_object_id`).
pub open spec fn lookup_oid(r: Seq<FieldV>, key: Seq<char>) -> Option<Seq<u8>> {
    match lookup_value(r, key) {
        Some(ValueV::ObjectId(b)) => Some(b),
        _ => None,
    }
}

/// The field's 32-bit integer, when present and of that type
/// (`Document::get_i32`).
pub open spec fn lookup_i32(r: Seq<FieldV>, key: Seq<char>) -> Option<i32> {
    match lookup_value(r, key) {
        Some(ValueV::Int32(i)) => Some(i),
        _ => None,
    }
}

/// The field's timestamp, when present and of that type
/// (`Bson::as_datetime`).
pub open spec fn lookup_datetime(r: Seq<FieldV>, key: Seq<char>) -> Option<i64> {
    match lookup_value(r, key) {
        Some(ValueV::DateTime(ms)) => Some(ms),
        _ => None,
    }
}

/// The record with `key` set to `value`: replaced in place when present,
/// appended otherwise (`Document::insert`).
pub open spec fn with_field(r: Seq<FieldV>, key: Seq<char>, value: ValueV, rank: Option<u64>) -> Seq<FieldV> {
    match find_from(r, key, 0) {
        Some(i) => r.update(i, FieldV { key, value, rank }),
        None => r.push(FieldV { key, value, rank }),
    }
}

/// Text of the field for a token: its display text, or nothing when absent.
pub open spec fn field_text(r: Seq<FieldV>, key: Seq<char>) -> Seq<char> {
    match lookup_value(r, key) {
        Some(v) => display(v),
        None => seq![],
    }
}

proof fn lemma_find_from_bounds(r: Seq<FieldV>, key: Seq<char>, i: int)
    requires
        0 <= i,
    ensures
        find_from(r, key, i) matches Some(j) ==> i <= j < r.len() && r[j].key == key,
        find_from(r, key, i) is None ==> forall|j: int| i <= j < r.len() ==> r[j].key != key,
    decreases r.len() - i,
{
    if i < 0 || i >= r.len() {
    } else if r[i].key == key {
    } else {
        lemma_find_from_bounds(r, key, i + 1);
    }
}

impl Record {
    /// A copy of this record.
    pub fn duplicate(&self) -> (r: Record)
        ensures
            r@ == self@,
    {
        let mut fs: Vec<Field> = Vec::new();
        let mut i: usize = 0;
        while i < self.fields.len()
            invariant
                i <= self.fields.len(),
                fs@.len() == i,
                forall|k: int| 0 <= k < i ==> (#[trigger] fs@[k])@ == self.fields@[k]@,
            decreases self.fields.len() - i,
        {
            let f = &self.fields[i];
            fs.push(Field { key: f.key.clone(), value: f.value.duplicate(), rank: f.rank });
            i = i + 1;
        }
        let r = Record { fields: fs };
        assert(r@ =~= self@);
        r
    }

    /// Index of the field named `key`.
    pub fn position(&self, key: &str) -> (r: Option<usize>)
        ensures
            r matches Some(i) ==> find_from(self@, key@, 0) == Some(i as int),
            r matches Some(i) ==> i < self.fields.len() && self@[i as int].key == key@,
            r is None ==> find_from(self@, key@, 0) is None,
    {
        proof {
            lemma_find_from_bounds(self@, key@, 0);
        }
        let mut i: usize = 0;
        while i < self.fields.len()
            invariant
                i <= self.fields.len(),
                find_from(self@, key@, 0) == find_from(self@, key@, i as int),
            decreases self.fields.len() - i,
        {
            if str_eq(self.fields[i].key.as_str(), key) {
                return Some(i);
            }
            i = i + 1;
        }
        None
    }

    /// The field named `key`.
    pub fn get(&self, key: &str) -> (r: Option<&Field>)
        ensures
            r matches Some(f) ==> lookup(self@, key@) == Some(f@),
            r is None ==> lookup(self@, key@) is None,
    {
        match self.position(key) {
            Some(i) => Some(&self.fields[i]),
            None => None,
        }
    }

    /// The field's object id, when present and of that type.
    pub fn get_object_id(&self, key: &str) -> (r: Option<Oid>)
        ensures
            r matches Some(o) ==> lookup_oid(self@, key@) == Some(o.bytes@),
            r is None ==> lookup_oid(self@, key@) is None,
    {
        match self.get(key) {
            Some(f) => match &f.value {
                Value::ObjectId(o) => Some(*o),
                _ => None,
            },
            None => None,
        }
    }

    /// The field's 32-bit integer, when present and of that type.
    pub fn get_i32(&self, key: &str) -> (r: Option<i32>)
        ensures
            r == lookup_i32(self@, key@),
    {
        match self.get(key) {
            Some(f) => match &f.value {
                Value::Int32(i) => Some(*i),
                _ => None,
            },
            None => None,
        }
    }

    /// The field's timestamp, when present and of that type.
    pub fn get_datetime(&self, key: &str) -> (r: Option<i64>)
        ensures
            r == lookup_datetime(self@, key@),
    {
        match self.get(key) {
            Some(f) => match &f.value {
                Value::DateTime(ms) => Some(*ms),
                _ => None,
            },
            None => None,
        }
    }

    /// Display text of the field named `key`, or nothing when absent.
    pub fn field_text(&self, key: &str) -> (r: String)
        ensures
            r@ == field_text(self@, key@),
    {
        match self.get(key) {
            Some(f) => f.value.display_text(),
            None => String::new(),
        }
    }

    /// Sets `key` to `value`: in place when present, appended otherwise.
    pub fn insert(&mut self, key: &str, value: Value, rank: Option<u64>)
        ensures
            final(self)@ == with_field(old(self)@, key@, value@, rank),
    {
        let ghost v = value@;
        let f = Field { key: key.to_string(), value, rank };
        match self.position(key) {
            Some(i) => {
                self.fields.set(i, f);
                assert(self@ =~= old(self)@.update(i as int, FieldV { key: key@, value: v, rank }));
            },
            None => {
                self.fields.push(f);
                assert(self@ =~= old(self)@.push(FieldV { key: key@, value: v, rank }));
            },
        }
    }

    /// Every field with its display text, in order (the record context the
    /// AI drafting call is given).
    pub fn text_map(&self) -> (r: Vec<(String, String)>)
        ensures
            r@.len() == self@.len(),
            forall|i: int| 0 <= i < r@.len() ==> r@[i].0@ == self@[i].key && r@[i].1@ == display(self@[i].value),
    {
        let mut out: Vec<(String, String)> = Vec::new();
        let mut i: usize = 0;
        while i < self.fields.len()
            invariant
                i <= self.fields.len(),
                out@.len() == i,
                forall|k: int| 0 <= k < i ==> out@[k].0@ == self@[k].key && out@[k].1@ == display(self@[k].value),
            decreases self.fields.len() - i,
        {
            let f = &self.fields[i];
            out.push((f.key.clone(), f.value.display_text()));
            i = i + 1;
        }
        out
    }
}

} // verus!
