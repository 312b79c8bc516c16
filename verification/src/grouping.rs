//! Grouping records by a text label in ascending label order (the order a
//! `BTreeMap<String, _>` keeps): the aggregation step behind the reports
//! and the dashboard leaderboard.
use vstd::prelude::*;
use crate::text::{chars_to_string, str_chars};

verus! {

/// Lexicographic order on character sequences (a proper prefix comes first).
/// On strings it agrees with `str`'s byte order, since UTF-8 keeps code
/// point order.
pub open spec fn lex_lt(a: Seq<char>, b: Seq<char>) -> bool
    decreases a.len(),
{
    if a.len() == 0 {
        b.len() > 0
    } else if b.len() == 0 {
        false
    } else if a[0] != b[0] {
        a[0] < b[0]
    } else {
        lex_lt(a.drop_first(), b.drop_first())
    }
}

/// `lex_lt` is a strict total order.
pub proof fn lemma_lex_order(a: Seq<char>, b: Seq<char>, c: Seq<char>)
    ensures
        !lex_lt(a, a),
        lex_lt(a, b) ==> !lex_lt(b, a),
        lex_lt(a, b) && lex_lt(b, c) ==> lex_lt(a, c),
        a != b ==> lex_lt(a, b) || lex_lt(b, a),
    decreases a.len(),
{
    if a.len() == 0 {
        if b.len() == 0 {
            assert(a =~= b);
        }
    } else {
        let b2 = if b.len() > 0 { b.drop_first() } else { b };
        let c2 = if c.len() > 0 { c.drop_first() } else { c };
        lemma_lex_order(a.drop_first(), b2, c2);
        if b.len() > 0 && a[0] == b[0] && a.drop_first() == b.drop_first() {
            assert forall|i: int| 0 <= i < a.len() implies a[i] == b[i] by {
                if i > 0 {
                    assert(a[i] == a.drop_first()[i - 1]);
                    assert(b[i] == b.drop_first()[i - 1]);
                }
            }
            assert(a =~= b);
        }
    }
}

/// Whether `a` comes strictly before `b`.
pub fn lex_less(a: &Vec<char>, b: &Vec<char>) -> (r: bool)
    ensures
        r == lex_lt(a@, b@),
{
    let mut i: usize = 0;
    assert(a@.skip(0) =~= a@);
    assert(b@.skip(0) =~= b@);
    while i < a.len() && i < b.len()
        invariant
            i <= a.len(),
            i <= b.len(),
            lex_lt(a@, b@) == lex_lt(a@.skip(i as int), b@.skip(i as int)),
        decreases a.len() - i,
    {
        if a[i] != b[i] {
            return a[i] < b[i];
        }
        assert(a@.skip(i as int).drop_first() =~= a@.skip(i + 1));
        assert(b@.skip(i as int).drop_first() =~= b@.skip(i + 1));
        i = i + 1;
    }
    i < b.len()
}

/// Whether two character sequences are equal.
pub fn chars_equal(a: &Vec<char>, b: &Vec<char>) -> (r: bool)
    ensures
        r == (a@ == b@),
{
    if a.len() != b.len() {
        return false;
    }
    let mut i: usize = 0;
    while i < a.len()
        invariant
            i <= a.len(),
            a.len() == b.len(),
            forall|j: int| 0 <= j < i ==> a@[j] == b@[j],
        decreases a.len() - i,
    {
        if a[i] != b[i] {
            return false;
        }
        i = i + 1;
    }
    assert(a@ =~= b@);
    true
}

/// One group: a label and the indices (ascending) of the items carrying it.
pub struct LabelGroup {
    pub label: String,
    pub members: Vec<usize>,
}

/// Working form of a group: the label as characters.
struct Bucket {
    label: Vec<char>,
    members: Vec<usize>,
}

/// Indices strictly increasing.
pub open spec fn increasing(s: Seq<usize>) -> bool {
    forall|a: int, b: int| 0 <= a < b < s.len() ==> s[a] < s[b]
}

/// The groups of `labels` (the first `n` of them): labels strictly
/// ascending, each group non-empty, every member below `n` and carrying
/// its group's label, members ascending, and every index in some group.
pub open spec fn groups_of(labels: Seq<Seq<char>>, n: int, gl: Seq<Seq<char>>, gm: Seq<Seq<usize>>) -> bool {
    &&& gl.len() == gm.len()
    &&& forall|a: int, b: int| 0 <= a < b < gl.len() ==> lex_lt(#[trigger] gl[a], #[trigger] gl[b])
    &&& forall|g: int| 0 <= g < gm.len() ==> (#[trigger] gm[g]).len() > 0 && increasing(gm[g])
    &&& forall|g: int, k: int| 0 <= g < gm.len() && 0 <= k < gm[g].len() ==> (#[trigger] gm[g][k]) < n
        && labels[gm[g][k] as int] == gl[g]
    &&& forall|j: int| 0 <= j < n ==> #[trigger] in_some_group(gm, j)
}

/// Index `j` is a member of some group.
pub open spec fn in_some_group(gm: Seq<Seq<usize>>, j: int) -> bool {
    exists|g: int, k: int| 0 <= g < gm.len() && 0 <= k < gm[g].len() && #[trigger] gm[g][k] == j
}

/// Labels of the working groups.
spec fn bucket_labels(bs: Seq<Bucket>) -> Seq<Seq<char>> {
    bs.map_values(|b: Bucket| b.label@)
}

/// Members of the working groups.
spec fn bucket_members(bs: Seq<Bucket>) -> Seq<Seq<usize>> {
    bs.map_values(|b: Bucket| b.members@)
}

/// Labels of the groups.
pub open spec fn group_labels(gs: Seq<LabelGroup>) -> Seq<Seq<char>> {
    gs.map_values(|g: LabelGroup| g.label@)
}

/// Members of the groups.
pub open spec fn group_members(gs: Seq<LabelGroup>) -> Seq<Seq<usize>> {
    gs.map_values(|g: LabelGroup| g.members@)
}

/// Views of the labels.
pub open spec fn label_views(labels: Seq<String>) -> Seq<Seq<char>> {
    labels.map_values(|s: String| s@)
}

/// Position of the first bucket whose label is not below `label`.
fn find_slot(bs: &Vec<Bucket>, label: &Vec<char>) -> (p: usize)
    requires
        forall|a: int, b: int| 0 <= a < b < bs@.len() ==> lex_lt(#[trigger] bs@[a].label@, #[trigger] bs@[b].label@),
    ensures
        p <= bs@.len(),
        forall|a: int| 0 <= a < p ==> lex_lt(#[trigger] bs@[a].label@, label@),
        p < bs@.len() ==> !lex_lt(bs@[p as int].label@, label@),
{
    let mut p: usize = 0;
    while p < bs.len()
        invariant
            p <= bs@.len(),
            forall|a: int| 0 <= a < p ==> lex_lt(#[trigger] bs@[a].label@, label@),
        decreases bs.len() - p,
    {
        if !lex_less(&bs[p].label, label) {
            return p;
        }
        p = p + 1;
    }
    p
}

/// Groups items by label, groups in ascending label order, each with the
/// ascending indices of its items.
pub fn group_by_label(labels: &Vec<String>) -> (r: Vec<LabelGroup>)
    ensures
        groups_of(label_views(labels@), labels@.len() as int, group_labels(r@), group_members(r@)),
{
    let ghost lv = label_views(labels@);
    let mut bs: Vec<Bucket> = Vec::new();
    let mut i: usize = 0;
    while i < labels.len()
        invariant
            i <= labels.len(),
            lv == label_views(labels@),
            lv.len() == labels@.len(),
            groups_of(lv, i as int, bucket_labels(bs@), bucket_members(bs@)),
        decreases labels.len() - i,
    {
        let label = str_chars(labels[i].as_str());
        assert(label@ == lv[i as int]);
        let ghost old_l = bucket_labels(bs@);
        let ghost old_m = bucket_members(bs@);
        proof {
            assert forall|a: int, b: int| 0 <= a < b < bs@.len() implies lex_lt(#[trigger] bs@[a].label@, #[trigger] bs@[b].label@) by {
                assert(old_l[a] == bs@[a].label@);
                assert(old_l[b] == bs@[b].label@);
            }
        }
        let p = find_slot(&bs, &label);
        if p < bs.len() && chars_equal(&bs[p].label, &label) {
            let mut b = bs.remove(p);
            let ghost bm = b.members@;
            b.members.push(i);
            bs.insert(p, b);
            let ghost new_l = bucket_labels(bs@);
            let ghost new_m = bucket_members(bs@);
            assert(new_l =~= old_l);
            assert(new_m =~= old_m.update(p as int, old_m[p as int].push(i)));
            assert forall|g: int, k: int| 0 <= g < new_m.len() && 0 <= k < new_m[g].len() implies (#[trigger] new_m[g][k]) < i + 1
                && lv[new_m[g][k] as int] == new_l[g] by {
                if g != p || k < old_m[g].len() {
                    assert(new_m[g][k] == old_m[g][k]);
                }
            }
            assert forall|g: int| 0 <= g < new_m.len() implies (#[trigger] new_m[g]).len() > 0 && increasing(new_m[g]) by {
                if g == p {
                    assert forall|a: int, c: int| 0 <= a < c < new_m[g].len() implies new_m[g][a] < new_m[g][c] by {
                        if c < old_m[g].len() {
                        } else {
                            assert(old_m[g][a] < i);
                        }
                    }
                }
            }
            assert forall|j: int| 0 <= j < i + 1 implies #[trigger] in_some_group(new_m, j) by {
                if j == i {
                    assert(new_m[p as int][old_m[p as int].len() as int] == j);
                } else {
                    assert(in_some_group(old_m, j));
                    let (g, k) = choose|g: int, k: int| 0 <= g < old_m.len() && 0 <= k < old_m[g].len() && #[trigger] old_m[g][k] == j;
                    assert(new_m[g][k] == j);
                }
            }
        } else {
            proof {
                if p < bs@.len() {
                    lemma_lex_order(label@, bs@[p as int].label@, label@);
                }
            }
            let mut members: Vec<usize> = Vec::new();
            members.push(i);
            bs.insert(p, Bucket { label, members });
            let ghost new_l = bucket_labels(bs@);
            let ghost new_m = bucket_members(bs@);
            assert(new_l =~= old_l.insert(p as int, lv[i as int]));
            assert(new_m =~= old_m.insert(p as int, seq![i]));
            assert forall|a: int, b: int| 0 <= a < b < new_l.len() implies lex_lt(#[trigger] new_l[a], #[trigger] new_l[b]) by {
                if a < p && b == p {
                } else if a == p && b > p {
                    if b - 1 > p {
                        lemma_lex_order(label@, old_l[p as int], old_l[b - 1]);
                        assert(lex_lt(old_l[p as int], old_l[b - 1]));
                    }
                    assert(lex_lt(label@, old_l[p as int]) || label@ == old_l[p as int] || true);
                    lemma_lex_order(label@, old_l[p as int], old_l[b - 1]);
                } else if a < p && b > p {
                } else if a > p {
                    assert(new_l[a] == old_l[a - 1]);
                    assert(new_l[b] == old_l[b - 1]);
                }
            }
            assert forall|g: int, k: int| 0 <= g < new_m.len() && 0 <= k < new_m[g].len() implies (#[trigger] new_m[g][k]) < i + 1
                && lv[new_m[g][k] as int] == new_l[g] by {
                if g < p {
                    assert(new_m[g][k] == old_m[g][k]);
                } else if g > p {
                    assert(new_m[g][k] == old_m[g - 1][k]);
                }
            }
            assert forall|g: int| 0 <= g < new_m.len() implies (#[trigger] new_m[g]).len() > 0 && increasing(new_m[g]) by {
                if g < p {
                    assert(new_m[g] == old_m[g]);
                } else if g > p {
                    assert(new_m[g] == old_m[g - 1]);
                }
            }
            assert forall|j: int| 0 <= j < i + 1 implies #[trigger] in_some_group(new_m, j) by {
                if j == i {
                    assert(new_m[p as int][0] == j);
                } else {
                    assert(in_some_group(old_m, j));
                    let (g, k) = choose|g: int, k: int| 0 <= g < old_m.len() && 0 <= k < old_m[g].len() && #[trigger] old_m[g][k] == j;
                    if g < p {
                        assert(new_m[g][k] == j);
                    } else {
                        assert(new_m[g + 1][k] == j);
                    }
                }
            }
        }
        i = i + 1;
    }
    let mut out: Vec<LabelGroup> = Vec::new();
    let mut g: usize = 0;
    let ghost fl = bucket_labels(bs@);
    let ghost fm = bucket_members(bs@);
    while g < bs.len()
        invariant
            g <= bs@.len(),
            fl == bucket_labels(bs@),
            fm == bucket_members(bs@),
            out@.len() == g,
            forall|k: int| 0 <= k < g ==> (#[trigger] out@[k]).label@ == fl[k] && out@[k].members@ == fm[k],
        decreases bs.len() - g,
    {
        let label = chars_to_string(&bs[g].label);
        let members = bs[g].members.clone();
        out.push(LabelGroup { label, members });
        g = g + 1;
    }
    assert(group_labels(out@) =~= fl);
    assert(group_members(out@) =~= fm);
    out
}

/// How many of the first `n` labels equal `label`.
pub open spec fn count_label(labels: Seq<Seq<char>>, label: Seq<char>, n: int) -> nat
    decreases n,
{
    if n <= 0 {
        0
    } else if labels[n - 1] == label {
        count_label(labels, label, n - 1) + 1
    } else {
        count_label(labels, label, n - 1)
    }
}

/// Index `j` is among the members `m`.
spec fn is_member(m: Seq<usize>, j: int) -> bool {
    exists|k: int| 0 <= k < m.len() && #[trigger] m[k] as int == j
}

/// Ascending indices below `n` that are exactly those below `n` carrying
/// `l` number as many as the label's count.
proof fn lemma_members_counted(labels: Seq<Seq<char>>, l: Seq<char>, n: int, m: Seq<usize>)
    requires
        0 <= n <= labels.len(),
        increasing(m),
        forall|k: int| 0 <= k < m.len() ==> (#[trigger] m[k]) < n && labels[m[k] as int] == l,
        forall|j: int| 0 <= j < n && labels[j] == l ==> #[trigger] is_member(m, j),
    ensures
        m.len() == count_label(labels, l, n),
    decreases n,
{
    if n == 0 {
        if m.len() > 0 {
            assert(m[0] < 0);
        }
    } else if labels[n - 1] == l {
        assert(is_member(m, n - 1));
        let k = choose|k: int| 0 <= k < m.len() && #[trigger] m[k] as int == n - 1;
        if k < m.len() - 1 {
            assert(m[k] < m[k + 1]);
            assert(m[k + 1] < n);
        }
        let m2 = m.drop_last();
        assert forall|k2: int| 0 <= k2 < m2.len() implies (#[trigger] m2[k2]) < n - 1 && labels[m2[k2] as int] == l by {
            assert(m[k2] < m[m.len() - 1]);
        }
        assert forall|j: int| 0 <= j < n - 1 && labels[j] == l implies #[trigger] is_member(m2, j) by {
            assert(is_member(m, j));
            let k3 = choose|k3: int| 0 <= k3 < m.len() && #[trigger] m[k3] as int == j;
            assert(m2[k3] == m[k3]);
        }
        lemma_members_counted(labels, l, n - 1, m2);
    } else {
        assert forall|k: int| 0 <= k < m.len() implies (#[trigger] m[k]) < n - 1 && labels[m[k] as int] == l by {
            assert(m[k] as int != n - 1);
        }
        lemma_members_counted(labels, l, n - 1, m);
    }
}

/// A label's group holds as many items as the label's count: grouping by
/// label and counting per label agree on every label.
pub proof fn lemma_group_size_is_label_count(labels: Seq<Seq<char>>, gl: Seq<Seq<char>>, gm: Seq<Seq<usize>>, g: int)
    requires
        groups_of(labels, labels.len() as int, gl, gm),
        0 <= g < gm.len(),
    ensures
        gm[g].len() == count_label(labels, gl[g], labels.len() as int),
{
    let n = labels.len() as int;
    let m = gm[g];
    assert forall|k: int| 0 <= k < m.len() implies (#[trigger] m[k]) < n && labels[m[k] as int] == gl[g] by {
        assert(gm[g][k] < n);
    }
    assert forall|j: int| 0 <= j < n && labels[j] == gl[g] implies #[trigger] is_member(m, j) by {
        assert(in_some_group(gm, j));
        let (g2, k2) = choose|g2: int, k2: int| 0 <= g2 < gm.len() && 0 <= k2 < gm[g2].len() && #[trigger] gm[g2][k2] == j;
        assert(labels[gm[g2][k2] as int] == gl[g2]);
        if g2 != g {
            lemma_lex_order(gl[g], gl[g2], gl[g]);
            if g < g2 {
                assert(lex_lt(gl[g], gl[g2]));
            } else {
                assert(lex_lt(gl[g2], gl[g]));
            }
        }
        assert(m[k2] as int == j);
    }
    lemma_members_counted(labels, gl[g], n, m);
}

/// A label and how many items carry it.
pub struct LabelCount {
    pub label: String,
    pub count: u32,
}

/// Labels of the counts.
pub open spec fn count_labels(cs: Seq<LabelCount>) -> Seq<Seq<char>> {
    cs.map_values(|c: LabelCount| c.label@)
}

/// Counts items per label, labels in ascending order (a `BTreeMap<String,
/// u32>` of counts): each label that occurs, once, with its number of
/// occurrences.
pub fn label_counts(labels: &Vec<String>) -> (r: Vec<LabelCount>)
    requires
        labels@.len() <= u32::MAX,
    ensures
        forall|a: int, b: int| 0 <= a < b < r@.len() ==> lex_lt(#[trigger] count_labels(r@)[a], #[trigger] count_labels(r@)[b]),
        forall|k: int| 0 <= k < r@.len() ==> label_views(labels@).contains(#[trigger] count_labels(r@)[k]),
        forall|j: int| 0 <= j < labels@.len() ==> count_labels(r@).contains(#[trigger] label_views(labels@)[j]),
        forall|k: int| 0 <= k < r@.len() ==> (#[trigger] r@[k]).count == count_label(
            label_views(labels@),
            r@[k].label@,
            labels@.len() as int,
        ),
{
    let ghost lv = label_views(labels@);
    let groups = group_by_label(labels);
    let ghost gl = group_labels(groups@);
    let ghost gm = group_members(groups@);
    let mut texts: Vec<Vec<char>> = Vec::new();
    let mut i: usize = 0;
    while i < labels.len()
        invariant
            i <= labels@.len(),
            lv == label_views(labels@),
            texts@.len() == i,
            forall|k: int| 0 <= k < i ==> (#[trigger] texts@[k])@ == lv[k],
        decreases labels.len() - i,
    {
        texts.push(str_chars(labels[i].as_str()));
        i = i + 1;
    }
    let mut out: Vec<LabelCount> = Vec::new();
    let mut g: usize = 0;
    while g < groups.len()
        invariant
            g <= groups@.len(),
            gl == group_labels(groups@),
            gm == group_members(groups@),
            lv == label_views(labels@),
            lv.len() == labels@.len(),
            labels@.len() <= u32::MAX,
            groups_of(lv, lv.len() as int, gl, gm),
            texts@.len() == labels@.len(),
            forall|k: int| 0 <= k < texts@.len() ==> (#[trigger] texts@[k])@ == lv[k],
            out@.len() == g,
            forall|k: int| 0 <= k < g ==> (#[trigger] out@[k]).label@ == gl[k],
            forall|k: int| 0 <= k < g ==> (#[trigger] out@[k]).count == count_label(lv, out@[k].label@, lv.len() as int),
        decreases groups.len() - g,
    {
        let label = str_chars(groups[g].label.as_str());
        let mut count: u32 = 0;
        let mut j: usize = 0;
        while j < texts.len()
            invariant
                j <= texts@.len(),
                texts@.len() == lv.len(),
                lv.len() <= u32::MAX,
                forall|k: int| 0 <= k < texts@.len() ==> (#[trigger] texts@[k])@ == lv[k],
                count == count_label(lv, label@, j as int),
                count <= j,
            decreases texts.len() - j,
        {
            if chars_equal(&texts[j], &label) {
                count = count + 1;
            }
            j = j + 1;
        }
        out.push(LabelCount { label: chars_to_string(&label), count });
        g = g + 1;
    }
    assert(count_labels(out@) =~= gl);
    assert forall|k: int| 0 <= k < out@.len() implies lv.contains(#[trigger] count_labels(out@)[k]) by {
        assert(gm[k].len() > 0);
        let m = gm[k][0];
        assert(lv[m as int] == gl[k]);
    }
    assert forall|jj: int| 0 <= jj < lv.len() implies count_labels(out@).contains(#[trigger] lv[jj]) by {
        assert(in_some_group(gm, jj));
        let (gg, kk) = choose|gg: int, kk: int| 0 <= gg < gm.len() && 0 <= kk < gm[gg].len() && #[trigger] gm[gg][kk] == jj;
        assert(lv[gm[gg][kk] as int] == gl[gg]);
        assert(count_labels(out@)[gg] == lv[jj]);
    }
    out
}


/// Two strictly ascending label lists holding the same labels are the same.
proof fn lemma_sorted_same(a: Seq<Seq<char>>, b: Seq<Seq<char>>)
    requires
        forall|i: int, j: int| 0 <= i < j < a.len() ==> lex_lt(#[trigger] a[i], #[trigger] a[j]),
        forall|i: int, j: int| 0 <= i < j < b.len() ==> lex_lt(#[trigger] b[i], #[trigger] b[j]),
        forall|i: int| 0 <= i < a.len() ==> b.contains(#[trigger] a[i]),
        forall|i: int| 0 <= i < b.len() ==> a.contains(#[trigger] b[i]),
    ensures
        a == b,
    decreases a.len(),
{
    if a.len() == 0 {
        if b.len() > 0 {
            assert(a.contains(b[0]));
        }
        assert(a =~= b);
    } else {
        if b.len() == 0 {
            assert(b.contains(a[0]));
        }
        assert(b.contains(a[0]));
        assert(a.contains(b[0]));
        let j = choose|j: int| 0 <= j < b.len() && b[j] == a[0];
        let i = choose|i: int| 0 <= i < a.len() && a[i] == b[0];
        lemma_lex_order(a[0], b[0], a[0]);
        if j > 0 {
            assert(lex_lt(b[0], b[j]));
            if i > 0 {
                assert(lex_lt(a[0], a[i]));
            }
        }
        assert(b[0] == a[0]);
        let a2 = a.drop_first();
        let b2 = b.drop_first();
        assert forall|k: int| 0 <= k < a2.len() implies b2.contains(#[trigger] a2[k]) by {
            assert(a2[k] == a[k + 1]);
            assert(b.contains(a[k + 1]));
            let m = choose|m: int| 0 <= m < b.len() && b[m] == a[k + 1];
            assert(lex_lt(a[0], a[k + 1]));
            lemma_lex_order(a[0], a[0], a[0]);
            assert(m != 0);
            assert(b2[m - 1] == b[m]);
        }
        assert forall|k: int| 0 <= k < b2.len() implies a2.contains(#[trigger] b2[k]) by {
            assert(b2[k] == b[k + 1]);
            assert(a.contains(b[k + 1]));
            let m = choose|m: int| 0 <= m < a.len() && a[m] == b[k + 1];
            assert(lex_lt(b[0], b[k + 1]));
            lemma_lex_order(b[0], b[0], b[0]);
            assert(m != 0);
            assert(a2[m - 1] == a[m]);
        }
        assert forall|x: int, y: int| 0 <= x < y < a2.len() implies lex_lt(#[trigger] a2[x], #[trigger] a2[y]) by {
            assert(a2[x] == a[x + 1] && a2[y] == a[y + 1]);
        }
        assert forall|x: int, y: int| 0 <= x < y < b2.len() implies lex_lt(#[trigger] b2[x], #[trigger] b2[y]) by {
            assert(b2[x] == b[x + 1] && b2[y] == b[y + 1]);
        }
        lemma_sorted_same(a2, b2);
        assert(a =~= seq![a[0]] + a2);
        assert(b =~= seq![b[0]] + b2);
    }
}

/// Grouping by label (what a report lists) and counting per label (what a
/// dashboard tile shows) agree on the same items: the same labels in the
/// same ascending order, and each group exactly as large as its label's
/// count.
pub proof fn lemma_groups_match_counts(labels: Seq<String>, groups: Seq<LabelGroup>, counts: Seq<LabelCount>)
    requires
        groups_of(label_views(labels), labels.len() as int, group_labels(groups), group_members(groups)),
        forall|a: int, b: int| 0 <= a < b < counts.len() ==> lex_lt(#[trigger] count_labels(counts)[a], #[trigger] count_labels(counts)[b]),
        forall|k: int| 0 <= k < counts.len() ==> label_views(labels).contains(#[trigger] count_labels(counts)[k]),
        forall|j: int| 0 <= j < labels.len() ==> count_labels(counts).contains(#[trigger] label_views(labels)[j]),
        forall|k: int| 0 <= k < counts.len() ==> (#[trigger] counts[k]).count == count_label(
            label_views(labels),
            counts[k].label@,
            labels.len() as int,
        ),
    ensures
        group_labels(groups) == count_labels(counts),
        forall|k: int| 0 <= k < groups.len() ==> (#[trigger] groups[k]).members@.len() == counts[k].count,
{
    let lv = label_views(labels);
    let gl = group_labels(groups);
    let gm = group_members(groups);
    let cl = count_labels(counts);
    assert forall|g: int| 0 <= g < gl.len() implies cl.contains(#[trigger] gl[g]) by {
        assert(gm[g].len() > 0);
        let j = gm[g][0] as int;
        assert(lv[j] == gl[g]);
        assert(cl.contains(lv[j]));
    }
    assert forall|k: int| 0 <= k < cl.len() implies gl.contains(#[trigger] cl[k]) by {
        assert(lv.contains(cl[k]));
        let j = choose|j: int| 0 <= j < lv.len() && lv[j] == cl[k];
        assert(in_some_group(gm, j));
        let (g, m) = choose|g: int, m: int| 0 <= g < gm.len() && 0 <= m < gm[g].len() && #[trigger] gm[g][m] == j;
        assert(lv[gm[g][m] as int] == gl[g]);
        assert(gl[g] == cl[k]);
    }
    lemma_sorted_same(gl, cl);
    assert forall|k: int| 0 <= k < groups.len() implies (#[trigger] groups[k]).members@.len() == counts[k].count by {
        lemma_group_size_is_label_count(lv, gl, gm, k);
        assert(gm[k] == groups[k].members@);
        assert(cl[k] == counts[k].label@);
    }
}

} // verus!
