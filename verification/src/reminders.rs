//! Renewal reminders: thresholds of "days before due", which of them a
//! renewal has crossed since the last scan, and the reminder text.
use vstd::prelude::*;
use crate::oid::{hex_text, Oid};
use crate::text::{chars_to_string, decimal, i64_to_string, replace_all, replace_all_spec, str_chars};
use crate::filter::{Cond, CondV, Filter, FilterV, Test, TestV};
use crate::value::{Value, ValueV};

verus! {

broadcast use {vstd::seq_lib::group_to_multiset_ensures, vstd::string::group_string_axioms};

/// Delivery channel of a notification.
#[derive(Clone, Copy, Debug, PartialEq, Eq, Structural)]
pub enum NotificationChannel {
    InApp,
}

/// Delivery state of a notification.
#[derive(Clone, Copy, Debug, PartialEq, Eq, Structural)]
pub enum NotificationStatus {
    Queued,
    Sent,
    Failed,
}

/// A reminder rule: for one policy type (or, with none, for all), the
/// day-before-due thresholds at which to remind, and the message template.
pub struct NotificationRule {
    pub id: Option<Oid>,
    pub policy_type: Option<String>,
    pub offset_days: Vec<i64>,
    pub template: String,
}

/// A reminder rule as the API returns it.
pub struct NotificationRuleResponse {
    pub id: String,
    pub policy_type: Option<String>,
    pub offset_days: Vec<i64>,
    pub template: String,
}

/// Body of a request that creates or replaces the rule for a policy type.
pub struct UpsertNotificationRuleInput {
    pub policy_type: Option<String>,
    pub offset_days: Vec<i64>,
    pub template: String,
}

/// Hex of an optional id, empty when absent.
pub open spec fn opt_hex(id: Option<Oid>) -> Seq<char> {
    match id {
        Some(o) => hex_text(o.bytes@),
        None => seq![],
    }
}

/// Hex text of an optional id, empty when absent.
pub fn opt_id_hex(id: &Option<Oid>) -> (r: String)
    ensures
        r@ == opt_hex(*id),
{
    match id {
        Some(o) => o.to_hex(),
        None => String::new(),
    }
}

impl NotificationRuleResponse {
    /// The API form of a stored rule.
    pub fn from_rule(r: NotificationRule) -> (out: NotificationRuleResponse)
        ensures
            out.id@ == opt_hex(r.id),
            out.policy_type == r.policy_type,
            out.offset_days == r.offset_days,
            out.template == r.template,
    {
        NotificationRuleResponse {
            id: opt_id_hex(&r.id),
            policy_type: r.policy_type,
            offset_days: r.offset_days,
            template: r.template,
        }
    }
}

/// Non-increasing order.
pub open spec fn sorted_desc(s: Seq<i64>) -> bool {
    forall|i: int, j: int| 0 <= i < j < s.len() ==> s[i] >= s[j]
}

/// Sorts thresholds from the farthest before due to the nearest.
pub fn sort_desc(v: &Vec<i64>) -> (r: Vec<i64>)
    ensures
        sorted_desc(r@),
        r@.to_multiset() == v@.to_multiset(),
        r@.len() == v@.len(),
{
    let mut out: Vec<i64> = Vec::new();
    let mut i: usize = 0;
    while i < v.len()
        invariant
            i <= v.len(),
            sorted_desc(out@),
            out@.to_multiset() == v@.take(i as int).to_multiset(),
            out@.len() == i,
        decreases v.len() - i,
    {
        let x = v[i];
        let mut pos: usize = 0;
        while pos < out.len() && out[pos] >= x
            invariant
                pos <= out.len(),
                forall|k: int| 0 <= k < pos ==> out@[k] >= x,
            decreases out.len() - pos,
        {
            pos = pos + 1;
        }
        let ghost before = out@;
        out.insert(pos, x);
        proof {
            vstd::seq_lib::to_multiset_insert(before, pos as int, x);
            assert(v@.take(i + 1) =~= v@.take(i as int).push(x));
            vstd::seq_lib::to_multiset_build(v@.take(i as int), x);
            assert forall|a: int, b: int| 0 <= a < b < out@.len() implies out@[a] >= out@[b] by {
                if b < pos {
                } else if b == pos {
                } else if a < pos {
                    assert(before[b - 1] <= before[a] || before[b - 1] <= x);
                    if pos < before.len() {
                        assert(before[pos as int] < x);
                    }
                } else if a == pos {
                    assert(before[pos as int] < x);
                } else {
                }
            }
        }
        i = i + 1;
    }
    assert(v@.take(v.len() as int) =~= v@);
    out
}

/// The stage a scan leaves a reminder cursor at: starting at `stage`, each
/// threshold `offsets[stage]` with `days_left <= offsets[stage]` is crossed
/// (one reminder each) and the cursor moves past it; the first threshold not
/// yet reached stops it.
pub open spec fn advance(offsets: Seq<i64>, stage: int, days_left: int) -> int
    decreases offsets.len() - stage,
{
    if 0 <= stage < offsets.len() && days_left <= offsets[stage] {
        advance(offsets, stage + 1, days_left)
    } else {
        stage
    }
}

/// Moves a reminder cursor past every threshold crossed at `days_left`.
pub fn advance_stage(offsets: &Vec<i64>, stage: usize, days_left: i64) -> (r: usize)
    ensures
        r == advance(offsets@, stage as int, days_left as int),
{
    let mut s = stage;
    while s < offsets.len() && days_left <= offsets[s]
        invariant
            advance(offsets@, stage as int, days_left as int) == advance(offsets@, s as int, days_left as int),
        decreases offsets.len() - s,
    {
        s = s + 1;
    }
    s
}

/// The cursor moves forward, never past the end, crossing only thresholds
/// that `days_left` has reached; scanning again at the same day crosses
/// nothing more.
pub proof fn lemma_advance_basics(offsets: Seq<i64>, stage: int, days_left: int)
    requires
        0 <= stage <= offsets.len(),
    ensures
        stage <= advance(offsets, stage, days_left) <= offsets.len(),
        forall|k: int| stage <= k < advance(offsets, stage, days_left) ==> days_left <= #[trigger] offsets[k],
        advance(offsets, advance(offsets, stage, days_left), days_left) == advance(offsets, stage, days_left),
    decreases offsets.len() - stage,
{
    if 0 <= stage < offsets.len() && days_left <= offsets[stage] {
        lemma_advance_basics(offsets, stage + 1, days_left);
    }
}

/// Reminders are path independent: a scan on a later day (fewer days left)
/// ends at the same cursor whether or not an earlier scan ran in between.
pub proof fn lemma_advance_path_independent(offsets: Seq<i64>, stage: int, earlier: int, later: int)
    requires
        0 <= stage <= offsets.len(),
        later <= earlier,
    ensures
        advance(offsets, advance(offsets, stage, earlier), later) == advance(offsets, stage, later),
    decreases offsets.len() - stage,
{
    if 0 <= stage < offsets.len() && earlier <= offsets[stage] {
        lemma_advance_path_independent(offsets, stage + 1, earlier, later);
    }
}

/// With thresholds sorted from farthest to nearest, a scan crosses every
/// remaining threshold that has been reached: all thresholds after the
/// cursor are still ahead.
pub proof fn lemma_advance_sorted(offsets: Seq<i64>, stage: int, days_left: int)
    requires
        0 <= stage <= offsets.len(),
        sorted_desc(offsets),
    ensures
        forall|k: int| advance(offsets, stage, days_left) <= k < offsets.len() ==> #[trigger] offsets[k] < days_left,
    decreases offsets.len() - stage,
{
    if 0 <= stage < offsets.len() && days_left <= offsets[stage] {
        lemma_advance_sorted(offsets, stage + 1, days_left);
    }
}

/// The rule that applies to a policy type: the first rule for exactly that
/// type, else the first rule for all types.
pub open spec fn select_rule_spec(types: Seq<Option<Seq<char>>>, policy_type: Seq<char>) -> Option<int> {
    if exists|i: int| 0 <= i < types.len() && types[i] == Some(policy_type) {
        Some(choose|i: int| 0 <= i < types.len() && types[i] == Some(policy_type)
            && forall|j: int| 0 <= j < i ==> types[j] != Some(policy_type))
    } else if exists|i: int| 0 <= i < types.len() && types[i] is None {
        Some(choose|i: int| 0 <= i < types.len() && types[i] is None
            && forall|j: int| 0 <= j < i ==> !(types[j] is None))
    } else {
        None
    }
}

/// Policy types of a rule list.
pub open spec fn rule_types(rules: Seq<NotificationRule>) -> Seq<Option<Seq<char>>> {
    rules.map_values(|r: NotificationRule| match r.policy_type {
        Some(t) => Some(t@),
        None => None,
    })
}

/// Index of the rule that applies to a policy type: the first rule for that
/// exact type, else the first rule for all types, else none.
pub fn select_rule(rules: &Vec<NotificationRule>, policy_type: &str) -> (r: Option<usize>)
    ensures
        r matches Some(i) ==> i < rules.len(),
        match r {
            Some(i) => select_rule_spec(rule_types(rules@), policy_type@) == Some(i as int),
            None => select_rule_spec(rule_types(rules@), policy_type@) is None,
        },
{
    let ghost types = rule_types(rules@);
    let mut i: usize = 0;
    let mut global: Option<usize> = None;
    while i < rules.len()
        invariant
            i <= rules.len(),
            types == rule_types(rules@),
            forall|j: int| 0 <= j < i ==> types[j] != Some(policy_type@),
            match global {
                Some(g) => g < i && types[g as int] is None && forall|j: int| 0 <= j < g ==> !(types[j] is None),
                None => forall|j: int| 0 <= j < i ==> !(types[j] is None),
            },
        decreases rules.len() - i,
    {
        match &rules[i].policy_type {
            Some(t) => {
                if crate::value::str_eq(t.as_str(), policy_type) {
                    assert(types[i as int] == Some(policy_type@));
                    let ghost w = choose|k: int| 0 <= k < types.len() && types[k] == Some(policy_type@)
                        && forall|j: int| 0 <= j < k ==> types[j] != Some(policy_type@);
                    assert(w == i as int) by {
                        if w < i {
                        } else if w > i {
                        }
                    }
                    return Some(i);
                }
            },
            None => {
                if global.is_none() {
                    global = Some(i);
                }
            },
        }
        i = i + 1;
    }
    match global {
        Some(g) => {
            let ghost w = choose|k: int| 0 <= k < types.len() && types[k] is None
                && forall|j: int| 0 <= j < k ==> !(types[j] is None);
            assert(w == g as int) by {
                if w < g {
                } else if w > g {
                }
            }
        },
        None => {},
    }
    global
}

/// A reminder's text: the template with `{customer_name}`, `{policy_type}`,
/// `{insurer_name}` and `{days}` replaced, in that order.
pub open spec fn render_message_spec(
    template: Seq<char>,
    customer_name: Seq<char>,
    policy_type: Seq<char>,
    insurer_name: Seq<char>,
    days: i64,
) -> Seq<char> {
    replace_all_spec(
        replace_all_spec(
            replace_all_spec(replace_all_spec(template, "{customer_name}"@, customer_name), "{policy_type}"@, policy_type),
            "{insurer_name}"@,
            insurer_name,
        ),
        "{days}"@,
        decimal(days as int),
    )
}

/// Renders a reminder template for one renewal and threshold.
pub fn render_message(template: &str, customer_name: &str, policy_type: &str, insurer_name: &str, days: i64) -> (r: String)
    ensures
        r@ == render_message_spec(template@, customer_name@, policy_type@, insurer_name@, days),
{
    proof {
        reveal_strlit("{customer_name}");
        reveal_strlit("{policy_type}");
        reveal_strlit("{insurer_name}");
        reveal_strlit("{days}");
    }
    let t0 = str_chars(template);
    let t1 = replace_all(&t0, &str_chars("{customer_name}"), &str_chars(customer_name));
    let t2 = replace_all(&t1, &str_chars("{policy_type}"), &str_chars(policy_type));
    let t3 = replace_all(&t2, &str_chars("{insurer_name}"), &str_chars(insurer_name));
    let d = i64_to_string(days);
    let t4 = replace_all(&t3, &str_chars("{days}"), &str_chars(d.as_str()));
    chars_to_string(&t4)
}

/// What one scan does for a renewal: one reminder (threshold and text) per
/// threshold crossed, and the new stage to store when it moved.
pub struct ReminderPlan {
    pub reminders: Vec<(i64, String)>,
    pub new_stage: Option<i32>,
}

/// Plans one scan's reminders for a renewal due at `due_ms`, whose stored
/// reminder stage is `stage`, scanned on epoch day `today`: thresholds are
/// taken farthest first; every threshold from the stage on that the days
/// left have reached yields a reminder; the stage moves past them.
pub fn plan_reminders(
    rule: &NotificationRule,
    due_ms: i64,
    stage: i32,
    today: i64,
    customer_name: &str,
    policy_type: &str,
    insurer_name: &str,
) -> (p: ReminderPlan)
    requires
        -100_000_000 <= today <= 100_000_000,
    ensures
        ({
            let offsets = sorted_of(rule.offset_days@);
            let days_left = crate::dates::day_of(due_ms as int) - today;
            let start = if stage < 0 { 0int } else { stage as int };
            let end = advance(offsets, start, days_left);
            &&& sorted_desc(offsets)
            &&& offsets.to_multiset() == rule.offset_days@.to_multiset()
            &&& p.reminders@.len() == if start <= end { end - start } else { 0 }
            &&& forall|k: int| 0 <= k < p.reminders@.len() ==> {
                &&& (#[trigger] p.reminders@[k]).0 == offsets[start + k]
                &&& p.reminders@[k].1@ == render_message_spec(rule.template@, customer_name@, policy_type@, insurer_name@, offsets[start + k])
            }
            &&& p.new_stage == if end != start { Some(end as i32) } else { None::<i32> }
        }),
        p.reminders@.len() == reminders_due(rule.offset_days@, stage, crate::dates::day_of(due_ms as int) - today),
        match p.new_stage {
            Some(s) => s,
            None => stage,
        } == stage_after(rule.offset_days@, stage, crate::dates::day_of(due_ms as int) - today),
{
    let offsets = sort_desc(&rule.offset_days);
    let day = crate::dates::day_of_millis(due_ms);
    let days_left = day - today;
    let start: usize = if stage < 0 { 0 } else { stage as usize };
    let end = advance_stage(&offsets, start, days_left);
    let mut reminders: Vec<(i64, String)> = Vec::new();
    let mut k: usize = start;
    proof {
        if start <= offsets.len() {
            lemma_advance_basics(offsets@, start as int, days_left as int);
        }
    }
    while k < end
        invariant
            start <= k <= end,
            end == advance(offsets@, start as int, days_left as int),
            end <= offsets.len() || end == start,
            reminders@.len() == k - start,
            forall|j: int| 0 <= j < reminders@.len() ==> {
                &&& (#[trigger] reminders@[j]).0 == offsets@[start + j]
                &&& reminders@[j].1@ == render_message_spec(rule.template@, customer_name@, policy_type@, insurer_name@, offsets@[start + j])
            },
        decreases end - k,
    {
        let o = offsets[k];
        let text = render_message(rule.template.as_str(), customer_name, policy_type, insurer_name, o);
        reminders.push((o, text));
        k = k + 1;
    }
    let new_stage = if end != start { Some(end as i32) } else { None };
    let p = ReminderPlan { reminders, new_stage };
    proof {
        lemma_sorted_of(rule.offset_days@, offsets@);
    }
    p
}

/// Where a reminder scan starts: the stored stage, at least 0.
pub open spec fn stage_start(stage: i32) -> int {
    if stage < 0 {
        0
    } else {
        stage as int
    }
}

/// How many reminders a scan from `stage` raises with `days_left` days
/// before due.
pub open spec fn reminders_due(offset_days: Seq<i64>, stage: i32, days_left: int) -> int {
    let start = stage_start(stage);
    let end = advance(sorted_of(offset_days), start, days_left);
    if start <= end {
        end - start
    } else {
        0
    }
}

/// The stage a renewal holds after a reminder scan: the new stage when the
/// scan moved it, else the one it had.
pub open spec fn stage_after(offset_days: Seq<i64>, stage: i32, days_left: int) -> i32 {
    let start = stage_start(stage);
    let end = advance(sorted_of(offset_days), start, days_left);
    if end != start {
        end as i32
    } else {
        stage
    }
}

/// Sorting keeps the thresholds: the same values, as many, farthest first.
pub proof fn lemma_sorted_of_len(s: Seq<i64>)
    ensures
        sorted_of(s).len() == s.len(),
        sorted_desc(sorted_of(s)),
        sorted_of(s).to_multiset() == s.to_multiset(),
{
    let leq = |a: i64, b: i64| a >= b;
    assert(vstd::relations::total_ordering(leq));
    s.lemma_sort_by_ensures(leq);
    let r = s.sort_by(leq);
    assert(sorted_desc(r)) by {
        assert forall|i: int, j: int| 0 <= i < j < r.len() implies r[i] >= r[j] by {
            assert(leq(r[i], r[j]));
        }
    }
    lemma_sorted_of(s, r);
    vstd::seq_lib::to_multiset_len(r);
    vstd::seq_lib::to_multiset_len(s);
}

/// Each reminder threshold is sent at most once: a second scan on the same
/// day, from the stage the first scan left, raises no reminder and leaves
/// the stage where it is.
pub proof fn lemma_second_scan_sends_nothing(offset_days: Seq<i64>, stage: i32, days_left: int)
    requires
        offset_days.len() <= i32::MAX,
    ensures
        reminders_due(offset_days, stage_after(offset_days, stage, days_left), days_left) == 0,
        stage_after(offset_days, stage_after(offset_days, stage, days_left), days_left) == stage_after(
            offset_days,
            stage,
            days_left,
        ),
{
    let offs = sorted_of(offset_days);
    lemma_sorted_of_len(offset_days);
    let start = stage_start(stage);
    let end = advance(offs, start, days_left);
    if start <= offs.len() {
        lemma_advance_basics(offs, start, days_left);
    }
    if end != start {
        assert(end as i32 == end);
        assert(stage_start(end as i32) == end);
    }
}

/// The thresholds sorted farthest first: the one arrangement of the same
/// values in non-increasing order.
pub open spec fn sorted_of(s: Seq<i64>) -> Seq<i64> {
    choose|r: Seq<i64>| sorted_desc(r) && r.to_multiset() == s.to_multiset()
}

/// Two non-increasing arrangements of the same values are the same.
pub proof fn lemma_sorted_desc_unique(x: Seq<i64>, y: Seq<i64>)
    requires
        sorted_desc(x),
        sorted_desc(y),
        x.to_multiset() == y.to_multiset(),
    ensures
        x == y,
{
    let leq = |a: i64, b: i64| a >= b;
    assert(vstd::relations::sorted_by(x, leq));
    assert(vstd::relations::sorted_by(y, leq));
    assert(vstd::relations::total_ordering(leq));
    vstd::seq_lib::lemma_sorted_unique(x, y, leq);
}

/// A sorted arrangement of `s` is `sorted_of(s)`.
pub proof fn lemma_sorted_of(s: Seq<i64>, r: Seq<i64>)
    requires
        sorted_desc(r),
        r.to_multiset() == s.to_multiset(),
    ensures
        sorted_of(s) == r,
{
    let c = sorted_of(s);
    assert(sorted_desc(c) && c.to_multiset() == s.to_multiset());
    lemma_sorted_desc_unique(c, r);
}

/// The reminder rule an empty rule collection is seeded with: for every
/// policy type, at 30, 15, 7, 1 and 0 days before due.
pub fn default_notification_rule() -> (r: NotificationRule)
    ensures
        r.id is None,
        r.policy_type is None,
        r.offset_days@ == seq![30i64, 15, 7, 1, 0],
        r.template@ == "{customer_name}'s {policy_type} policy with {insurer_name} is due for renewal in {days} day(s)."@,
{
    let offsets = vec![30i64, 15, 7, 1, 0];
    assert(offsets@ =~= seq![30i64, 15, 7, 1, 0]);
    NotificationRule {
        id: None,
        policy_type: None,
        offset_days: offsets,
        template: "{customer_name}'s {policy_type} policy with {insurer_name} is due for renewal in {days} day(s).".to_string(),
    }
}

/// The renewals a reminder scan looks at: those still pending or contacted.
pub fn reminder_candidates_filter() -> (f: Filter)
    ensures
        f@ == FilterV::Doc(seq![CondV {
            field: "status"@,
            test: TestV::In(seq![ValueV::Str("pending"@), ValueV::Str("contacted"@)]),
        }]),
{
    let vals = vec![Value::Str("pending".to_string()), Value::Str("contacted".to_string())];
    proof {
        crate::value::lemma_values_view(vals@);
        assert(crate::value::values_view(vals@) =~= seq![ValueV::Str("pending"@), ValueV::Str("contacted"@)]);
    }
    Filter::single(Cond { field: "status".to_string(), test: Test::In(vals) })
}

} // verus!
