//! Workflow message templates: `{field}` tokens replaced by the record's
//! field values.
use vstd::prelude::*;
use crate::text::{chars_to_string, push_all, str_chars};
use crate::value::{display, field_text, lookup_value, FieldV, Record};

verus! {

/// Position of the first `}` at or after `j`, or the template's length.
pub open spec fn close_from(t: Seq<char>, j: int) -> int
    decreases t.len() - j,
{
    if j < 0 || j >= t.len() {
        t.len() as int
    } else if t[j] == '}' {
        j
    } else {
        close_from(t, j + 1)
    }
}

/// `close_from` lies between `j` and the length, and skips no `}`.
pub proof fn lemma_close_from(t: Seq<char>, j: int)
    requires
        0 <= j,
    ensures
        j <= close_from(t, j) || j > t.len(),
        close_from(t, j) <= t.len(),
        close_from(t, j) < t.len() ==> t[close_from(t, j)] == '}',
        forall|k: int| j <= k < close_from(t, j) ==> t[k] != '}',
    decreases t.len() - j,
{
    if j >= t.len() {
    } else if t[j] == '}' {
    } else {
        lemma_close_from(t, j + 1);
    }
}

/// The rendered text from position `i` of template `t` on: characters are
/// copied; `{token}` becomes the text of the record's field `token`
/// (nothing when the record lacks it); an unclosed `{` and everything after
/// it is copied as is.
pub open spec fn render_from(t: Seq<char>, rec: Seq<FieldV>, i: int) -> Seq<char>
    decreases t.len() - i,
{
    if i < 0 || i >= t.len() {
        seq![]
    } else if t[i] != '{' {
        seq![t[i]] + render_from(t, rec, i + 1)
    } else {
        let k = close_from(t, i + 1);
        proof {
            lemma_close_from(t, i + 1);
        }
        if k < t.len() {
            field_text(rec, t.subrange(i + 1, k)) + render_from(t, rec, k + 1)
        } else {
            t.subrange(i, t.len() as int)
        }
    }
}

/// The rendered template.
pub open spec fn render_spec(t: Seq<char>, rec: Seq<FieldV>) -> Seq<char> {
    render_from(t, rec, 0)
}

/// Renders a template against a record: each `{field}` token becomes that
/// field's display text.
pub fn render_template(template: &str, doc: &Record) -> (r: String)
    ensures
        r@ == render_spec(template@, doc@),
{
    let t = str_chars(template);
    let mut out: Vec<char> = Vec::new();
    let mut i: usize = 0;
    while i < t.len()
        invariant
            i <= t.len(),
            t@ == template@,
            render_from(t@, doc@, 0) == out@ + render_from(t@, doc@, i as int),
        decreases t.len() - i,
    {
        if t[i] != '{' {
            out.push(t[i]);
            i = i + 1;
        } else {
            proof {
                lemma_close_from(t@, i + 1);
            }
            let mut j: usize = i + 1;
            while j < t.len() && t[j] != '}'
                invariant
                    i + 1 <= j <= t.len(),
                    close_from(t@, i + 1) == close_from(t@, j as int),
                decreases t.len() - j,
            {
                j = j + 1;
            }
            if j < t.len() {
                let mut token: Vec<char> = Vec::new();
                let mut k: usize = i + 1;
                while k < j
                    invariant
                        i + 1 <= k <= j,
                        j < t.len(),
                        token@ == t@.subrange(i + 1, k as int),
                    decreases j - k,
                {
                    token.push(t[k]);
                    k = k + 1;
                    assert(t@.subrange(i + 1, k as int) =~= t@.subrange(i + 1, k - 1).push(t@[k - 1]));
                }
                let name = chars_to_string(&token);
                let value = doc.field_text(name.as_str());
                let vs = str_chars(value.as_str());
                push_all(&mut out, &vs);
                i = j + 1;
            } else {
                let mut rest: Vec<char> = Vec::new();
                let mut k: usize = i;
                while k < t.len()
                    invariant
                        i <= k <= t.len(),
                        rest@ == t@.subrange(i as int, k as int),
                    decreases t.len() - k,
                {
                    rest.push(t[k]);
                    k = k + 1;
                    assert(t@.subrange(i as int, k as int) =~= t@.subrange(i as int, k - 1).push(t@[k - 1]));
                }
                push_all(&mut out, &rest);
                i = t.len();
            }
        }
    }
    chars_to_string(&out)
}

/// Text with no `{` renders as itself, whatever the record.
pub proof fn lemma_render_plain(t: Seq<char>, rec: Seq<FieldV>, i: int)
    requires
        0 <= i <= t.len(),
        forall|k: int| 0 <= k < t.len() ==> t[k] != '{',
    ensures
        render_from(t, rec, i) == t.subrange(i, t.len() as int),
    decreases t.len() - i,
{
    if i < t.len() {
        lemma_render_plain(t, rec, i + 1);
        assert(t.subrange(i, t.len() as int) =~= seq![t[i]] + t.subrange(i + 1, t.len() as int));
    } else {
        assert(t.subrange(i, t.len() as int) =~= seq![]);
    }
}


/// Looking for `}` after a prefix is looking for it in the rest.
proof fn lemma_close_shift(x: Seq<char>, s: Seq<char>, j: int)
    requires
        0 <= j,
    ensures
        close_from(x + s, x.len() + j) == x.len() + close_from(s, j),
    decreases s.len() - j,
{
    if j < s.len() {
        assert((x + s)[x.len() + j] == s[j]);
        if s[j] != '}' {
            lemma_close_shift(x, s, j + 1);
        }
    }
}

/// Rendering after a prefix is rendering the rest on its own.
proof fn lemma_render_shift(x: Seq<char>, s: Seq<char>, rec: Seq<FieldV>, j: int)
    requires
        0 <= j,
    ensures
        render_from(x + s, rec, x.len() + j) == render_from(s, rec, j),
    decreases s.len() - j,
{
    let t = x + s;
    let n = x.len() as int;
    if j < s.len() {
        assert(t[n + j] == s[j]);
        if s[j] != '{' {
            lemma_render_shift(x, s, rec, j + 1);
        } else {
            lemma_close_shift(x, s, j + 1);
            lemma_close_from(s, j + 1);
            let k = close_from(s, j + 1);
            if k < s.len() {
                assert(t.subrange(n + j + 1, n + k) =~= s.subrange(j + 1, k));
                lemma_render_shift(x, s, rec, k + 1);
            } else {
                assert(t.subrange(n + j, t.len() as int) =~= s.subrange(j, s.len() as int));
            }
        }
    }
}

/// Rendering goes left to right: text without `{` is kept as it is, a
/// closed `{field}` token becomes the record's field as displayed (nothing
/// when the record lacks the field), and what follows renders on its own;
/// a `{` that is never closed is kept with the rest of the text.
pub proof fn lemma_render_token(p: Seq<char>, k: Seq<char>, s: Seq<char>, rec: Seq<FieldV>)
    requires
        forall|i: int| 0 <= i < p.len() ==> p[i] != '{',
        forall|i: int| 0 <= i < k.len() ==> k[i] != '}',
    ensures
        render_spec(p + seq!['{'] + k + seq!['}'] + s, rec) == p + match lookup_value(rec, k) {
            Some(v) => display(v),
            None => Seq::<char>::empty(),
        } + render_spec(s, rec),
        render_spec(p + seq!['{'] + k, rec) == p + seq!['{'] + k,
{
    let u = seq!['{'] + k + seq!['}'] + s;
    let t = p + seq!['{'] + k + seq!['}'] + s;
    assert(t =~= p + u);
    lemma_render_prefix(p, u, rec, 0);
    lemma_render_shift(p, u, rec, 0);
    let head = seq!['{'] + k + seq!['}'];
    assert(u =~= head + s);
    lemma_close_shift(seq!['{'], k + seq!['}'] + s, 0);
    assert(u =~= seq!['{'] + (k + seq!['}'] + s));
    lemma_close_to_end(k, seq!['}'] + s, 0);
    assert(close_from(k + seq!['}'] + s, 0) == k.len()) by {
        assert(k + seq!['}'] + s =~= k + (seq!['}'] + s));
        assert((seq!['}'] + s)[0] == '}');
    }
    assert(u.subrange(1, 1 + k.len() as int) =~= k);
    lemma_render_shift(head, s, rec, 0);
    assert(render_from(u, rec, 0) == field_text(rec, k) + render_from(u, rec, k.len() as int + 2));
    let w = seq!['{'] + k;
    assert(p + seq!['{'] + k =~= p + w);
    lemma_render_prefix(p, w, rec, 0);
    lemma_render_shift(p, w, rec, 0);
    lemma_close_shift(seq!['{'], k, 0);
    assert(k + Seq::<char>::empty() =~= k);
    lemma_close_to_end(k, Seq::<char>::empty(), 0);
    assert(close_from(k, 0) == k.len());
    assert(close_from(w, 1) == w.len());
    assert(w[0] == '{');
    assert(w.subrange(0, w.len() as int) =~= w);
    assert(render_from(w, rec, 0) == w);
    assert(p.subrange(0, p.len() as int) =~= p);
}

/// `}` not found in a part free of it: the search runs past that part.
proof fn lemma_close_to_end(k: Seq<char>, rest: Seq<char>, j: int)
    requires
        0 <= j <= k.len(),
        forall|i: int| 0 <= i < k.len() ==> k[i] != '}',
    ensures
        close_from(k + rest, j) == k.len() + close_from(rest, 0),
    decreases k.len() - j,
{
    if j < k.len() {
        assert((k + rest)[j] == k[j]);
        lemma_close_to_end(k, rest, j + 1);
    } else {
        lemma_close_shift(k, rest, 0);
    }
}

/// Text without `{` before the rest is kept as it is.
proof fn lemma_render_prefix(p: Seq<char>, u: Seq<char>, rec: Seq<FieldV>, i: int)
    requires
        0 <= i <= p.len(),
        forall|m: int| 0 <= m < p.len() ==> p[m] != '{',
    ensures
        render_from(p + u, rec, i) == p.subrange(i, p.len() as int) + render_from(p + u, rec, p.len() as int),
    decreases p.len() - i,
{
    if i < p.len() {
        assert((p + u)[i] == p[i]);
        lemma_render_prefix(p, u, rec, i + 1);
        assert(p.subrange(i, p.len() as int) =~= seq![p[i]] + p.subrange(i + 1, p.len() as int));
    } else {
        assert(p.subrange(i, p.len() as int) =~= Seq::<char>::empty());
    }
}

} // verus!
