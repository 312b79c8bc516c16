//! Workflow automation: rules that watch records (on creation, on a field
//! change, or as a date approaches), check conditions on the record, and
//! plan actions (notify, log a follow-up, reassign, set a field, suggest).
use vstd::prelude::*;
use crate::filter::{Cond, CondV, Filter, FilterV, Test, TestV};
use crate::oid::{hex_text, oid_opt_view, Oid, SYSTEM_USER_ID, parse_oid};
use crate::reminders::{advance, advance_stage, sort_desc, sorted_desc, sorted_of, lemma_sorted_of, opt_hex, opt_id_hex};
use crate::template::{render_spec, render_template};
use crate::text::{chars_to_string, push_str, str_chars};
use crate::value::{
    display, lookup, lookup_datetime, lookup_i32, lookup_oid, seq_contains_value, str_eq, value_eq,
    values_view, with_field, FieldV, Record, Value, ValueV,
};

verus! {

broadcast use vstd::string::group_string_axioms;

/// Which collection a rule watches.
#[derive(Clone, Copy, Debug, PartialEq, Eq, Structural)]
pub enum EntityType {
    Renewal,
    Policy,
    Customer,
    Lead,
    Claim,
}

/// Kind of a follow-up logged on a policy.
#[derive(Clone, Copy, Debug, PartialEq, Eq, Structural)]
pub enum FollowUpType {
    Call,
    Whatsapp,
    Email,
    Note,
}

/// When a rule fires.
pub enum TriggerKind {
    /// As the record's date field comes within each of these many days.
    TimeOffset { date_field: String, offset_days: Vec<i64> },
    /// When `field` changes, to `to_value` if one is given.
    FieldChanged { field: String, to_value: Option<Value> },
    /// When a record is created.
    RecordCreated,
}

/// Comparison a condition makes.
#[derive(Clone, Copy, Debug, PartialEq, Eq, Structural)]
pub enum ConditionOp {
    Eq,
    Ne,
    Gt,
    Lt,
    Gte,
    Lte,
    In,
    IsSet,
}

/// A condition on one field of the record. `rank` is the `double_rank` of
/// `value` read as a double (as for record fields), `None` when it is not a
/// number or a timestamp, or is NaN.
pub struct Condition {
    pub field: String,
    pub op: ConditionOp,
    pub value: Value,
    pub rank: Option<u64>,
}

/// What a rule does when it fires.
pub enum ActionKind {
    SendNotification { template: String },
    CreateFollowUp { follow_up_kind: FollowUpType, template: String },
    ReassignOwner { to_user_id: Option<Oid> },
    UpdateField { field: String, value: Value },
    DraftAiMessage { hint: String },
    Suggest { message: String },
}

/// A workflow rule.
pub struct WorkflowRule {
    pub id: Option<Oid>,
    pub name: String,
    pub entity_type: EntityType,
    pub trigger: TriggerKind,
    pub conditions: Vec<Condition>,
    pub actions: Vec<ActionKind>,
    pub enabled: bool,
    pub created_by: Oid,
    /// Epoch milliseconds.
    pub created_at: i64,
}

/// A rule as the API returns it.
pub struct WorkflowRuleResponse {
    pub id: String,
    pub name: String,
    pub entity_type: EntityType,
    pub trigger: TriggerKind,
    pub conditions: Vec<Condition>,
    pub actions: Vec<ActionKind>,
    pub enabled: bool,
    pub created_by: String,
    pub created_at: i64,
}

impl WorkflowRuleResponse {
    /// The API form of a stored rule: ids as hex, the id empty when absent.
    pub fn from_rule(r: WorkflowRule) -> (out: WorkflowRuleResponse)
        ensures
            out.id@ == opt_hex(r.id),
            out.name == r.name,
            out.entity_type == r.entity_type,
            out.trigger == r.trigger,
            out.conditions == r.conditions,
            out.actions == r.actions,
            out.enabled == r.enabled,
            out.created_by@ == hex_text(r.created_by.bytes@),
            out.created_at == r.created_at,
    {
        WorkflowRuleResponse {
            id: opt_id_hex(&r.id),
            name: r.name,
            entity_type: r.entity_type,
            trigger: r.trigger,
            conditions: r.conditions,
            actions: r.actions,
            enabled: r.enabled,
            created_by: r.created_by.to_hex(),
            created_at: r.created_at,
        }
    }
}

/// New rules are enabled unless the request says otherwise.
pub fn default_true() -> (r: bool)
    ensures
        r,
{
    true
}

/// Collection of an entity type.
pub open spec fn collection_spec(e: EntityType) -> Seq<char> {
    match e {
        EntityType::Renewal => "renewals"@,
        EntityType::Policy => "policies"@,
        EntityType::Customer => "customers"@,
        EntityType::Lead => "leads"@,
        EntityType::Claim => "claims"@,
    }
}

/// Collection of an entity type.
pub fn collection_name(e: EntityType) -> (r: &'static str)
    ensures
        r@ == collection_spec(e),
{
    match e {
        EntityType::Renewal => "renewals",
        EntityType::Policy => "policies",
        EntityType::Customer => "customers",
        EntityType::Lead => "leads",
        EntityType::Claim => "claims",
    }
}

/// Stored (serialized) name of an entity type.
pub open spec fn entity_key_spec(e: EntityType) -> Seq<char> {
    match e {
        EntityType::Renewal => "renewal"@,
        EntityType::Policy => "policy"@,
        EntityType::Customer => "customer"@,
        EntityType::Lead => "lead"@,
        EntityType::Claim => "claim"@,
    }
}

/// Stored (serialized) name of an entity type.
pub fn entity_key(e: EntityType) -> (r: &'static str)
    ensures
        r@ == entity_key_spec(e),
{
    match e {
        EntityType::Renewal => "renewal",
        EntityType::Policy => "policy",
        EntityType::Customer => "customer",
        EntityType::Lead => "lead",
        EntityType::Claim => "claim",
    }
}

/// The query for the enabled rules of an entity type:
/// `{"enabled": true, "entity_type": <type>}`.
pub fn enabled_rules_filter(e: EntityType) -> (f: Filter)
    ensures
        f@ == FilterV::Doc(seq![
            CondV { field: "enabled"@, test: TestV::Eq(ValueV::Bool(true)) },
            CondV { field: "entity_type"@, test: TestV::Eq(ValueV::Str(entity_key_spec(e))) },
        ]),
{
    let c1 = Cond { field: "enabled".to_string(), test: Test::Eq(Value::Bool(true)) };
    let c2 = Cond { field: "entity_type".to_string(), test: Test::Eq(Value::Str(entity_key(e).to_string())) };
    let f = Filter::single(c1).with_cond(c2);
    assert(f@ matches FilterV::Doc(cs) && cs =~= seq![
        CondV { field: "enabled"@, test: TestV::Eq(ValueV::Bool(true)) },
        CondV { field: "entity_type"@, test: TestV::Eq(ValueV::Str(entity_key_spec(e))) },
    ]);
    f
}

/// Whether a condition holds of a record: `IsSet` when the field is present;
/// `Eq` when present and equal; `Ne` when absent or not equal; `In` when the
/// condition's value is an array holding the field's value; the orderings
/// when both the field and the condition value have a numeric key and the
/// keys compare that way.
pub open spec fn condition_holds(doc: Seq<FieldV>, c: Condition) -> bool {
    let f = lookup(doc, c.field@);
    match c.op {
        ConditionOp::IsSet => f is Some,
        ConditionOp::Eq => f matches Some(fv) && value_eq(fv.value, c.value@),
        ConditionOp::Ne => match f {
            Some(fv) => !value_eq(fv.value, c.value@),
            None => true,
        },
        ConditionOp::In => match c.value@ {
            ValueV::Array(xs, _) => f matches Some(fv) && seq_contains_value(xs, fv.value),
            _ => false,
        },
        _ => match (f, c.rank) {
            (Some(fv), Some(b)) => match fv.rank {
                Some(a) => match c.op {
                    ConditionOp::Gt => a > b,
                    ConditionOp::Lt => a < b,
                    ConditionOp::Gte => a >= b,
                    _ => a <= b,
                },
                None => false,
            },
            _ => false,
        },
    }
}

/// The condition with its operator replaced by `op`.
pub open spec fn with_op(c: Condition, op: ConditionOp) -> Condition {
    Condition { field: c.field, op, value: c.value, rank: c.rank }
}

/// Ordering conditions compare numeric keys: when the record's field and
/// the condition both have a key, `>`, `<`, `>=` and `<=` hold exactly when
/// the field's key compares so with the condition's; `<=` is `<` or equal
/// keys, `>=` is `>` or equal keys, and `<` and `>=` are each other's
/// negation. When the field is absent or either key is missing, none of
/// them holds.
pub proof fn lemma_ordering_conditions(doc: Seq<FieldV>, c: Condition)
    ensures
        ({
            let gt = condition_holds(doc, with_op(c, ConditionOp::Gt));
            let lt = condition_holds(doc, with_op(c, ConditionOp::Lt));
            let gte = condition_holds(doc, with_op(c, ConditionOp::Gte));
            let lte = condition_holds(doc, with_op(c, ConditionOp::Lte));
            match lookup(doc, c.field@) {
                Some(fv) => match (fv.rank, c.rank) {
                    (Some(a), Some(b)) => {
                        &&& gt <==> a > b
                        &&& lt <==> a < b
                        &&& gte <==> a >= b
                        &&& lte <==> a <= b
                        &&& lte <==> (lt || a == b)
                        &&& gte <==> (gt || a == b)
                        &&& lt <==> !gte
                    },
                    _ => !gt && !lt && !gte && !lte,
                },
                None => !gt && !lt && !gte && !lte,
            }
        }),
{
}

/// Equality conditions: `!=` is the negation of `==` on a present field
/// and holds of an absent one, where `==` fails; `is set` holds exactly of
/// a present field; `==` holds exactly when the field's value equals the
/// condition's (as BSON values); `in` holds exactly when the condition's
/// value is an array with an element equal to the field's value.
pub proof fn lemma_equality_conditions(doc: Seq<FieldV>, c: Condition)
    ensures
        ({
            let eq = condition_holds(doc, with_op(c, ConditionOp::Eq));
            let ne = condition_holds(doc, with_op(c, ConditionOp::Ne));
            let set = condition_holds(doc, with_op(c, ConditionOp::IsSet));
            let is_in = condition_holds(doc, with_op(c, ConditionOp::In));
            match lookup(doc, c.field@) {
                Some(fv) => {
                    &&& set
                    &&& ne <==> !eq
                    &&& eq <==> value_eq(fv.value, c.value@)
                    &&& is_in <==> (c.value@ matches ValueV::Array(xs, _) && exists|k: int|
                        0 <= k < xs.len() && value_eq(#[trigger] xs[k], fv.value))
                },
                None => !set && !eq && ne && !is_in,
            }
        }),
{
}

/// All conditions hold.
pub open spec fn conditions_hold(doc: Seq<FieldV>, cs: Seq<Condition>) -> bool {
    forall|i: int| 0 <= i < cs.len() ==> #[trigger] condition_holds(doc, cs[i])
}

/// Whether `v` equals some element of `xs`.
fn array_contains(xs: &Vec<Value>, v: &Value) -> (r: bool)
    ensures
        r == seq_contains_value(values_view(xs@), v@),
{
    proof {
        crate::value::lemma_values_view(xs@);
    }
    let ghost xv = values_view(xs@);
    let mut i: usize = 0;
    while i < xs.len()
        invariant
            i <= xs.len(),
            xv == values_view(xs@),
            xv.len() == xs.len(),
            forall|k: int| 0 <= k < xs.len() ==> xv[k] == (#[trigger] xs@[k])@,
            forall|k: int| 0 <= k < i ==> !value_eq(#[trigger] xv[k], v@),
        decreases xs.len() - i,
    {
        if xs[i].equals(v) {
            assert(value_eq(xv[i as int], v@));
            return true;
        }
        i = i + 1;
    }
    false
}

/// Whether one condition holds of the record.
pub fn condition_matches(doc: &Record, c: &Condition) -> (r: bool)
    ensures
        r == condition_holds(doc@, *c),
{
    let f = doc.get(c.field.as_str());
    match c.op {
        ConditionOp::IsSet => f.is_some(),
        ConditionOp::Eq => match f {
            Some(fv) => fv.value.equals(&c.value),
            None => false,
        },
        ConditionOp::Ne => match f {
            Some(fv) => !fv.value.equals(&c.value),
            None => true,
        },
        ConditionOp::In => match &c.value {
            Value::Array(xs, _) => match f {
                Some(fv) => array_contains(xs, &fv.value),
                None => false,
            },
            _ => false,
        },
        _ => match f {
            Some(fv) => match (fv.rank, c.rank) {
                (Some(a), Some(b)) => match c.op {
                    ConditionOp::Gt => a > b,
                    ConditionOp::Lt => a < b,
                    ConditionOp::Gte => a >= b,
                    _ => a <= b,
                },
                _ => false,
            },
            None => false,
        },
    }
}

/// Whether every condition holds of the record.
pub fn conditions_match(doc: &Record, conditions: &Vec<Condition>) -> (r: bool)
    ensures
        r == conditions_hold(doc@, conditions@),
{
    let mut i: usize = 0;
    while i < conditions.len()
        invariant
            i <= conditions.len(),
            forall|k: int| 0 <= k < i ==> #[trigger] condition_holds(doc@, conditions@[k]),
        decreases conditions.len() - i,
    {
        if !condition_matches(doc, &conditions[i]) {
            return false;
        }
        i = i + 1;
    }
    true
}

/// A rule fires on creation: it is a creation rule and its conditions hold
/// of the new record.
pub open spec fn fires_on_create(rule: WorkflowRule, doc: Seq<FieldV>) -> bool {
    rule.trigger is RecordCreated && conditions_hold(doc, rule.conditions@)
}

/// A rule fires on a field change: it watches that field, its target value
/// (if any) equals the new value, and its conditions hold of the updated
/// record.
pub open spec fn fires_on_change(rule: WorkflowRule, field: Seq<char>, new_value: ValueV, doc: Seq<FieldV>) -> bool {
    match rule.trigger {
        TriggerKind::FieldChanged { field: rf, to_value } => {
            &&& rf@ == field
            &&& match to_value {
                Some(v) => value_eq(v@, new_value),
                None => true,
            }
            &&& conditions_hold(doc, rule.conditions@)
        },
        _ => false,
    }
}

/// When rules fire: a creation rule fires on a new record exactly when
/// each of its conditions holds of it, and never on a change; a change rule
/// never fires on creation, fires only on a change of the field it watches
/// to its target value (when it has one) with each condition holding of
/// the updated record, and a change rule with no target and no conditions
/// fires on every change of its field.
pub proof fn lemma_firing(rule: WorkflowRule, field: Seq<char>, new_value: ValueV, doc: Seq<FieldV>)
    ensures
        fires_on_create(rule, doc) <==> (rule.trigger is RecordCreated && forall|i: int|
            0 <= i < rule.conditions@.len() ==> condition_holds(doc, #[trigger] rule.conditions@[i])),
        fires_on_change(rule, field, new_value, doc) ==> {
            &&& rule.trigger matches TriggerKind::FieldChanged { field: f, to_value } && f@ == field && (
            to_value matches Some(v) ==> value_eq(v@, new_value))
            &&& forall|i: int| 0 <= i < rule.conditions@.len() ==> condition_holds(doc, #[trigger] rule.conditions@[i])
        },
        (rule.trigger matches TriggerKind::FieldChanged { field: f, to_value: None } && f@ == field
            && rule.conditions@.len() == 0) ==> fires_on_change(rule, field, new_value, doc),
        rule.trigger is FieldChanged ==> !fires_on_create(rule, doc),
        rule.trigger is RecordCreated ==> !fires_on_change(rule, field, new_value, doc),
{
}

/// The rules (by index, in order) that fire when `doc` is created. The
/// caller passes the enabled rules of the record's entity type.
pub fn rules_fired_on_create(rules: &Vec<WorkflowRule>, doc: &Record) -> (r: Vec<usize>)
    ensures
        forall|k: int| 0 <= k < r@.len() ==> (#[trigger] r@[k]) < rules@.len(),
        forall|k: int, l: int| 0 <= k < l < r@.len() ==> r@[k] < r@[l],
        forall|i: int| 0 <= i < rules@.len() ==> (fires_on_create(#[trigger] rules@[i], doc@) <==> r@.contains(i as usize)),
{
    let mut out: Vec<usize> = Vec::new();
    let mut i: usize = 0;
    while i < rules.len()
        invariant
            i <= rules.len(),
            forall|k: int| 0 <= k < out@.len() ==> (#[trigger] out@[k]) < i,
            forall|k: int, l: int| 0 <= k < l < out@.len() ==> out@[k] < out@[l],
            forall|j: int| 0 <= j < i ==> (fires_on_create(#[trigger] rules@[j], doc@) <==> out@.contains(j as usize)),
        decreases rules.len() - i,
    {
        let rule = &rules[i];
        let fires = matches!(rule.trigger, TriggerKind::RecordCreated) && conditions_match(doc, &rule.conditions);
        let ghost before = out@;
        if fires {
            out.push(i);
        }
        assert forall|j: int| 0 <= j < i + 1 implies (fires_on_create(#[trigger] rules@[j], doc@) <==> out@.contains(j as usize)) by {
            if j < i {
                if before.contains(j as usize) {
                    let k = choose|k: int| 0 <= k < before.len() && before[k] == j as usize;
                    assert(out@[k] == j as usize);
                }
                if out@.contains(j as usize) {
                    let k = choose|k: int| 0 <= k < out@.len() && out@[k] == j as usize;
                    if k < before.len() {
                        assert(before[k] == j as usize);
                    }
                }
            } else {
                if fires {
                    assert(out@[out@.len() - 1] == i);
                } else {
                    if out@.contains(j as usize) {
                        let k = choose|k: int| 0 <= k < out@.len() && out@[k] == j as usize;
                        assert(before[k] < i);
                    }
                }
            }
        }
        i = i + 1;
    }
    out
}

/// The rules (by index, in order) that fire when `field` of `doc` changes
/// to `new_value`; `doc` is the record after the update.
pub fn rules_fired_on_change(rules: &Vec<WorkflowRule>, field: &str, new_value: &Value, doc: &Record) -> (r: Vec<usize>)
    ensures
        forall|k: int| 0 <= k < r@.len() ==> (#[trigger] r@[k]) < rules@.len(),
        forall|k: int, l: int| 0 <= k < l < r@.len() ==> r@[k] < r@[l],
        forall|i: int| 0 <= i < rules@.len() ==> (fires_on_change(#[trigger] rules@[i], field@, new_value@, doc@) <==> r@.contains(i as usize)),
{
    let mut out: Vec<usize> = Vec::new();
    let mut i: usize = 0;
    while i < rules.len()
        invariant
            i <= rules.len(),
            forall|k: int| 0 <= k < out@.len() ==> (#[trigger] out@[k]) < i,
            forall|k: int, l: int| 0 <= k < l < out@.len() ==> out@[k] < out@[l],
            forall|j: int| 0 <= j < i ==> (fires_on_change(#[trigger] rules@[j], field@, new_value@, doc@) <==> out@.contains(j as usize)),
        decreases rules.len() - i,
    {
        let rule = &rules[i];
        let fires = match &rule.trigger {
            TriggerKind::FieldChanged { field: rf, to_value } => {
                str_eq(rf.as_str(), field) && match to_value {
                    Some(v) => v.equals(new_value),
                    None => true,
                } && conditions_match(doc, &rule.conditions)
            },
            _ => false,
        };
        assert(fires == fires_on_change(rules@[i as int], field@, new_value@, doc@));
        let ghost before = out@;
        if fires {
            out.push(i);
        }
        assert forall|j: int| 0 <= j < i + 1 implies (fires_on_change(#[trigger] rules@[j], field@, new_value@, doc@) <==> out@.contains(j as usize)) by {
            if j < i {
                if before.contains(j as usize) {
                    let k = choose|k: int| 0 <= k < before.len() && before[k] == j as usize;
                    assert(out@[k] == j as usize);
                }
                if out@.contains(j as usize) {
                    let k = choose|k: int| 0 <= k < out@.len() && out@[k] == j as usize;
                    if k < before.len() {
                        assert(before[k] == j as usize);
                    }
                }
            } else {
                if fires {
                    assert(out@[out@.len() - 1] == i);
                } else {
                    if out@.contains(j as usize) {
                        let k = choose|k: int| 0 <= k < out@.len() && out@[k] == j as usize;
                        assert(before[k] < i);
                    }
                }
            }
        }
        i = i + 1;
    }
    out
}

/// Where a time rule's progress cursor starts: the stored cursor, at least
/// 0, at most the number of thresholds (a cursor at or past the end crosses
/// nothing either way).
pub open spec fn cursor_start(reached: Option<i64>, len: int) -> int {
    match reached {
        Some(s) => if s < 0 { 0 } else if s > len { len } else { s as int },
        None => 0,
    }
}

/// What one scan of a time rule does for one record: the thresholds crossed
/// (each fires the rule's actions, with the threshold as the record's
/// `days` field), and the new progress cursor to store when it moved.
pub struct TimeStep {
    pub fired: Vec<i64>,
    pub new_stage: Option<i64>,
}

/// The scan of a time-offset rule over one record: nothing unless the rule
/// is a time rule, the record has a timestamp in the rule's date field and
/// the conditions hold; then the thresholds (farthest first) from the
/// stored cursor on that the days left before that date have reached.
pub open spec fn time_step_spec(rule: WorkflowRule, doc: Seq<FieldV>, reached: Option<i64>, today: int) -> (Seq<i64>, Option<i64>) {
    match rule.trigger {
        TriggerKind::TimeOffset { date_field, offset_days } => match lookup_datetime(doc, date_field@) {
            Some(ms) => if conditions_hold(doc, rule.conditions@) {
                let offs = sorted_of(offset_days@);
                let start = cursor_start(reached, offs.len() as int);
                let end = advance(offs, start, crate::dates::day_of(ms as int) - today);
                (offs.subrange(start, end), if end != start { Some(end as i64) } else { None })
            } else {
                (seq![], None)
            },
            None => (seq![], None),
        },
        _ => (seq![], None),
    }
}

/// A scan of the rule looks at the record: the rule is a time rule, the
/// record holds a timestamp in its date field and the conditions hold.
/// Only then does the scan read the rule's stored progress.
pub open spec fn time_rule_applies_spec(rule: WorkflowRule, doc: Seq<FieldV>) -> bool {
    match rule.trigger {
        TriggerKind::TimeOffset { date_field, .. } => lookup_datetime(doc, date_field@) is Some && conditions_hold(
            doc,
            rule.conditions@,
        ),
        _ => false,
    }
}

/// Whether a scan of the rule looks at the record; when it does not, the
/// scan fires nothing and stores nothing, whatever the progress and day.
pub fn time_rule_applies(rule: &WorkflowRule, doc: &Record) -> (r: bool)
    ensures
        r == time_rule_applies_spec(*rule, doc@),
        !r ==> forall|reached: Option<i64>, today: int| #[trigger] time_step_spec(*rule, doc@, reached, today) == (
        Seq::<i64>::empty(), None::<i64>),
{
    match &rule.trigger {
        TriggerKind::TimeOffset { date_field, .. } => {
            doc.get_datetime(date_field.as_str()).is_some() && conditions_match(doc, &rule.conditions)
        },
        _ => false,
    }
}

/// The progress cursor stored after a scan step: the new one when it
/// moved, else the one there was.
pub open spec fn cursor_after(reached: Option<i64>, step: (Seq<i64>, Option<i64>)) -> Option<i64> {
    match step.1 {
        Some(s) => Some(s),
        None => reached,
    }
}

/// Each offset threshold fires at most once per rule and record: a second
/// scan on the same day, from the cursor the first one stored, fires
/// nothing and stores nothing.
pub proof fn lemma_time_rule_fires_once(rule: WorkflowRule, doc: Seq<FieldV>, reached: Option<i64>, today: int)
    requires
        rule.trigger matches TriggerKind::TimeOffset { offset_days, .. } ==> offset_days.len() <= i64::MAX,
    ensures
        time_step_spec(rule, doc, cursor_after(reached, time_step_spec(rule, doc, reached, today)), today).0.len() == 0,
        time_step_spec(rule, doc, cursor_after(reached, time_step_spec(rule, doc, reached, today)), today).1 is None,
{
    if let TriggerKind::TimeOffset { date_field, offset_days } = rule.trigger {
        if let Some(ms) = lookup_datetime(doc, date_field@) {
            if conditions_hold(doc, rule.conditions@) {
                let offs = sorted_of(offset_days@);
                crate::reminders::lemma_sorted_of_len(offset_days@);
                let dl = crate::dates::day_of(ms as int) - today;
                let start = cursor_start(reached, offs.len() as int);
                crate::reminders::lemma_advance_basics(offs, start, dl);
                let end = advance(offs, start, dl);
                if end != start {
                    assert(end as i64 == end);
                    assert(cursor_start(Some(end as i64), offs.len() as int) == end);
                }
            }
        }
    }
}

/// On its first scan of a record, a time rule fires exactly the thresholds
/// that the days left before the record's date have reached: every fired
/// threshold is at least the days left, and every threshold at least the
/// days left fires, farthest first.
pub proof fn lemma_first_scan_fires_reached(rule: WorkflowRule, doc: Seq<FieldV>, today: int)
    ensures
        rule.trigger matches TriggerKind::TimeOffset { date_field, offset_days } ==> (lookup_datetime(doc, date_field@)
            matches Some(ms) ==> (conditions_hold(doc, rule.conditions@) ==> {
            let fired = time_step_spec(rule, doc, None, today).0;
            let left = crate::dates::day_of(ms as int) - today;
            &&& forall|k: int| 0 <= k < fired.len() ==> left <= #[trigger] fired[k]
            &&& forall|k: int, l: int| 0 <= k < l < fired.len() ==> fired[k] >= fired[l]
            &&& forall|j: int| 0 <= j < offset_days@.len() && left <= offset_days@[j] ==> fired.contains(
                #[trigger] offset_days@[j],
            )
        })),
{
    if let TriggerKind::TimeOffset { date_field, offset_days } = rule.trigger {
        if let Some(ms) = lookup_datetime(doc, date_field@) {
            if conditions_hold(doc, rule.conditions@) {
                let offs = sorted_of(offset_days@);
                crate::reminders::lemma_sorted_of_len(offset_days@);
                let left = crate::dates::day_of(ms as int) - today;
                crate::reminders::lemma_advance_basics(offs, 0, left);
                crate::reminders::lemma_advance_sorted(offs, 0, left);
                let end = advance(offs, 0, left);
                let fired = offs.subrange(0, end);
                assert(time_step_spec(rule, doc, None, today).0 == fired);
                assert forall|j: int| 0 <= j < offset_days@.len() && left <= offset_days@[j] implies fired.contains(
                    #[trigger] offset_days@[j],
                ) by {
                    let o = offset_days@[j];
                    assert(offset_days@.contains(o));
                    vstd::seq_lib::to_multiset_contains(offset_days@, o);
                    vstd::seq_lib::to_multiset_contains(offs, o);
                    let m = choose|m: int| 0 <= m < offs.len() && offs[m] == o;
                    assert(m < end);
                    assert(fired[m] == o);
                }
            }
        }
    }
}

/// One scan step of a time-offset rule over one record, on epoch day
/// `today`, with the stored progress cursor `reached` (if any).
pub fn time_trigger_step(rule: &WorkflowRule, doc: &Record, reached: Option<i64>, today: i64) -> (r: TimeStep)
    requires
        -100_000_000 <= today <= 100_000_000,
        rule.trigger matches TriggerKind::TimeOffset { offset_days, .. } ==> offset_days.len() <= i64::MAX,
    ensures
        (r.fired@, r.new_stage) == time_step_spec(*rule, doc@, reached, today as int),
{
    let none = TimeStep { fired: Vec::new(), new_stage: None };
    match &rule.trigger {
        TriggerKind::TimeOffset { date_field, offset_days } => {
            let date = match doc.get_datetime(date_field.as_str()) {
                Some(ms) => ms,
                None => {
                    assert(none.fired@ =~= seq![]);
                    return none;
                },
            };
            if !conditions_match(doc, &rule.conditions) {
                assert(none.fired@ =~= seq![]);
                return none;
            }
            let offsets = sort_desc(offset_days);
            proof {
                lemma_sorted_of(offset_days@, offsets@);
            }
            let days_left = crate::dates::day_of_millis(date) - today;
            let start: usize = match reached {
                Some(s) => if s < 0 {
                    0
                } else if s as u64 > offsets.len() as u64 {
                    offsets.len()
                } else {
                    s as usize
                },
                None => 0,
            };
            let end = advance_stage(&offsets, start, days_left);
            proof {
                crate::reminders::lemma_advance_basics(offsets@, start as int, days_left as int);
            }
            let mut fired: Vec<i64> = Vec::new();
            let mut k: usize = start;
            while k < end
                invariant
                    start <= k <= end,
                    end <= offsets.len(),
                    fired@ == offsets@.subrange(start as int, k as int),
                decreases end - k,
            {
                fired.push(offsets[k]);
                k = k + 1;
                assert(offsets@.subrange(start as int, k as int) =~= offsets@.subrange(start as int, k - 1).push(offsets@[k - 1]));
            }
            let new_stage = if end != start { Some(end as i64) } else { None };
            TimeStep { fired, new_stage }
        },
        _ => {
            assert(none.fired@ =~= seq![]);
            none
        },
    }
}

/// The record a fired threshold renders against: the record with `days`
/// set to the threshold (a 64-bit integer, with no numeric key).
pub fn with_days(doc: &Record, days: i64) -> (r: Record)
    ensures
        r@ == with_field(doc@, "days"@, ValueV::Int64(days), None),
{
    let mut r = doc.duplicate();
    r.insert("days", Value::Int64(days), None);
    r
}

/// What executing one action amounts to.
pub enum ActionPlan {
    /// Nothing to do (a notification for a record that is not a renewal).
    Skip,
    /// Store and dispatch an in-app notification.
    Notify { renewal_id: Oid, customer_id: Option<Oid>, user_id: Oid, message: String, offset_days: i64 },
    /// Log a follow-up (by `author`) on a policy, and move its pending
    /// renewal to contacted.
    FollowUp { policy_id: Oid, author: Oid, kind: FollowUpType, content: String },
    /// Set the record's owner.
    Reassign { collection: &'static str, entity_id: Oid, new_owner: Oid },
    /// Set one field of the record.
    SetField { collection: &'static str, entity_id: Oid, field: String, value: Value },
    /// Open a suggestion (unless one is already open for this rule and record).
    Suggest { rule_id: Oid, entity_type: EntityType, entity_id: Oid, assigned_to: Option<Oid>, message: String },
    /// Ask the AI service to draft a message from the hint and the record's
    /// fields, then open a suggestion with it (which needs the rule's id).
    Draft { rule_id: Option<Oid>, entity_type: EntityType, entity_id: Oid, assigned_to: Option<Oid>, hint: String, context: Vec<(String, String)> },
}


/// The rule needs its id to plan this action (the suggestion points back
/// at it).
pub open spec fn needs_rule_id(action: ActionKind) -> bool {
    action is Suggest
}

/// Plans one action of a rule firing on record `entity_id` of `entity_type`,
/// whose document is `doc`. Errors are the reasons an action cannot run.
pub fn plan_action(rule_id: Option<Oid>, action: &ActionKind, entity_type: EntityType, entity_id: Oid, doc: &Record) -> (r: Result<ActionPlan, String>)
    requires
        needs_rule_id(*action) ==> rule_id is Some,
    ensures
        match *action {
            ActionKind::SendNotification { template } => if entity_type != EntityType::Renewal {
                r matches Ok(ActionPlan::Skip)
            } else {
                match lookup_oid(doc@, "assigned_to"@) {
                    None => r matches Err(m) && m@ == "record has no assigned_to field"@,
                    Some(u) => r matches Ok(ActionPlan::Notify { renewal_id, customer_id, user_id, message, offset_days })
                        && renewal_id == entity_id
                        && oid_opt_view(customer_id) == lookup_oid(doc@, "customer_id"@)
                        && user_id.bytes@ == u
                        && message@ == render_spec(template@, doc@)
                        && offset_days == match lookup_i32(doc@, "days"@) {
                            Some(d) => d as i64,
                            None => 0i64,
                        },
                }
            },
            ActionKind::CreateFollowUp { follow_up_kind, template } => match entity_type {
                EntityType::Customer => r matches Err(m) && m@ == "CreateFollowUp isn't supported for Customer entities"@,
                EntityType::Lead => r matches Err(m) && m@ == "CreateFollowUp isn't supported for Lead entities (no policy_id field)"@,
                EntityType::Policy => r matches Ok(ActionPlan::FollowUp { policy_id, author, kind, content })
                    && policy_id == entity_id
                    && author.bytes@ == crate::oid::system_user_bytes()
                    && kind == follow_up_kind
                    && content@ == render_spec(template@, doc@),
                _ => match lookup_oid(doc@, "policy_id"@) {
                    None => r matches Err(m) && m@ == "record has no policy_id field"@,
                    Some(p) => r matches Ok(ActionPlan::FollowUp { policy_id, author, kind, content })
                        && policy_id.bytes@ == p
                        && author.bytes@ == crate::oid::system_user_bytes()
                        && kind == follow_up_kind
                        && content@ == render_spec(template@, doc@),
                },
            },
            ActionKind::ReassignOwner { to_user_id } => match to_user_id {
                None => r matches Err(m) && m@ == "ReassignOwner requires to_user_id"@,
                Some(u) => if entity_type == EntityType::Customer {
                    r matches Err(m) && m@ == "ReassignOwner isn't supported for Customer entities (no assigned_to field)"@
                } else {
                    r matches Ok(ActionPlan::Reassign { collection, entity_id: e, new_owner })
                        && collection@ == collection_spec(entity_type)
                        && e == entity_id
                        && new_owner == u
                },
            },
            ActionKind::UpdateField { field, value } => r matches Ok(ActionPlan::SetField { collection, entity_id: e, field: f, value: v })
                && collection@ == collection_spec(entity_type)
                && e == entity_id
                && f@ == field@
                && v@ == value@,
            ActionKind::Suggest { message } => r matches Ok(ActionPlan::Suggest { rule_id: rid, entity_type: et, entity_id: e, assigned_to, message: m })
                && Some(rid) == rule_id
                && et == entity_type
                && e == entity_id
                && oid_opt_view(assigned_to) == lookup_oid(doc@, "assigned_to"@)
                && m@ == render_spec(message@, doc@),
            ActionKind::DraftAiMessage { hint } => r matches Ok(ActionPlan::Draft { rule_id: rid, entity_type: et, entity_id: e, assigned_to, hint: h, context })
                && rid == rule_id
                && et == entity_type
                && e == entity_id
                && oid_opt_view(assigned_to) == lookup_oid(doc@, "assigned_to"@)
                && h@ == hint@
                && context@.len() == doc@.len()
                && forall|i: int| 0 <= i < context@.len() ==> context@[i].0@ == doc@[i].key && context@[i].1@ == display(doc@[i].value),
        },
{
    match action {
        ActionKind::SendNotification { template } => {
            if entity_type != EntityType::Renewal {
                return Ok(ActionPlan::Skip);
            }
            let user_id = match doc.get_object_id("assigned_to") {
                Some(u) => u,
                None => return Err("record has no assigned_to field".to_string()),
            };
            let offset_days: i64 = match doc.get_i32("days") {
                Some(d) => d as i64,
                None => 0,
            };
            Ok(ActionPlan::Notify {
                renewal_id: entity_id,
                customer_id: doc.get_object_id("customer_id"),
                user_id,
                message: render_template(template.as_str(), doc),
                offset_days,
            })
        },
        ActionKind::CreateFollowUp { follow_up_kind, template } => {
            let policy_id = match entity_type {
                EntityType::Policy => entity_id,
                EntityType::Renewal | EntityType::Claim => match doc.get_object_id("policy_id") {
                    Some(p) => p,
                    None => return Err("record has no policy_id field".to_string()),
                },
                EntityType::Customer => return Err("CreateFollowUp isn't supported for Customer entities".to_string()),
                EntityType::Lead => return Err(
                    "CreateFollowUp isn't supported for Lead entities (no policy_id field)".to_string(),
                ),
            };
            proof {
                crate::oid::lemma_system_user_id();
            }
            let author = match parse_oid(SYSTEM_USER_ID) {
                Ok(o) => o,
                Err(_) => return Err("invalid system user id".to_string()),
            };
            Ok(ActionPlan::FollowUp {
                policy_id,
                author,
                kind: *follow_up_kind,
                content: render_template(template.as_str(), doc),
            })
        },
        ActionKind::ReassignOwner { to_user_id } => {
            let new_owner = match to_user_id {
                Some(u) => *u,
                None => return Err("ReassignOwner requires to_user_id".to_string()),
            };
            if entity_type == EntityType::Customer {
                return Err("ReassignOwner isn't supported for Customer entities (no assigned_to field)".to_string());
            }
            Ok(ActionPlan::Reassign { collection: collection_name(entity_type), entity_id, new_owner })
        },
        ActionKind::UpdateField { field, value } => Ok(ActionPlan::SetField {
            collection: collection_name(entity_type),
            entity_id,
            field: field.clone(),
            value: value.duplicate(),
        }),
        ActionKind::Suggest { message } => {
            let rid = match rule_id {
                Some(x) => x,
                None => return Err("rule has no id".to_string()),
            };
            Ok(ActionPlan::Suggest {
                rule_id: rid,
                entity_type,
                entity_id,
                assigned_to: doc.get_object_id("assigned_to"),
                message: render_template(message.as_str(), doc),
            })
        },
        ActionKind::DraftAiMessage { hint } => {
            Ok(ActionPlan::Draft {
                rule_id,
                entity_type,
                entity_id,
                assigned_to: doc.get_object_id("assigned_to"),
                hint: hint.clone(),
                context: doc.text_map(),
            })
        },
    }
}

/// The suggestion text for an AI-drafted message, marked as drafted so
/// staff read it over before sending.
pub fn drafted_message(drafted: &str) -> (r: String)
    ensures
        r@ == "Drafted follow-up: "@ + drafted@,
{
    let mut out = str_chars("Drafted follow-up: ");
    push_str(&mut out, drafted);
    chars_to_string(&out)
}

/// A request to create a workflow rule (enabled unless it says otherwise).
pub struct CreateWorkflowRuleInput {
    pub name: String,
    pub entity_type: EntityType,
    pub trigger: TriggerKind,
    pub conditions: Vec<Condition>,
    pub actions: Vec<ActionKind>,
    pub enabled: bool,
}

/// A partial edit of a workflow rule.
pub struct UpdateWorkflowRuleInput {
    pub name: Option<String>,
    pub trigger: Option<TriggerKind>,
    pub conditions: Option<Vec<Condition>>,
    pub actions: Option<Vec<ActionKind>>,
    pub enabled: Option<bool>,
}

/// Progress of a time rule over one record: how many of its sorted
/// thresholds have fired.
pub struct WorkflowTriggerState {
    pub id: Option<Oid>,
    pub rule_id: Oid,
    pub entity_id: Oid,
    pub offset_reached: i64,
}

/// The rule a create request stores, by the caller, at `now`.
pub fn new_workflow_rule(input: CreateWorkflowRuleInput, caller: Oid, now: i64) -> (r: WorkflowRule)
    ensures
        r.id is None,
        r.name == input.name,
        r.entity_type == input.entity_type,
        r.trigger == input.trigger,
        r.conditions == input.conditions,
        r.actions == input.actions,
        r.enabled == input.enabled,
        r.created_by == caller,
        r.created_at == now,
{
    WorkflowRule {
        id: None,
        name: input.name,
        entity_type: input.entity_type,
        trigger: input.trigger,
        conditions: input.conditions,
        actions: input.actions,
        enabled: input.enabled,
        created_by: caller,
        created_at: now,
    }
}

/// The scalar part of a rule edit's `$set`: the name and the enabled flag
/// when given (the trigger, conditions and actions are written whole
/// beside them).
pub fn rule_scalar_set(input: &UpdateWorkflowRuleInput) -> (r: Vec<crate::value::Field>)
    ensures
        crate::policies::fields_view(r@) == crate::policies::opt_text_field("name"@, input.name) + match input.enabled {
            Some(b) => seq![crate::policies::set_field("enabled"@, ValueV::Bool(b))],
            None => Seq::<FieldV>::empty(),
        },
{
    let mut fs: Vec<crate::value::Field> = Vec::new();
    crate::policies::push_opt_text(&mut fs, "name", &input.name);
    let ghost a = crate::policies::fields_view(fs@);
    if let Some(b) = input.enabled {
        crate::policies::push_field(&mut fs, "enabled", Value::Bool(b));
    }
    assert(crate::policies::fields_view(fs@) =~= a + match input.enabled {
        Some(b) => seq![crate::policies::set_field("enabled"@, ValueV::Bool(b))],
        None => Seq::<FieldV>::empty(),
    });
    fs
}

/// The progress cursor of a rule over a record.
pub fn trigger_state_filter(rule_id: Oid, entity_id: Oid) -> (f: Filter)
    ensures
        f@ == FilterV::Doc(seq![
            CondV { field: "rule_id"@, test: TestV::Eq(ValueV::ObjectId(rule_id.bytes@)) },
            CondV { field: "entity_id"@, test: TestV::Eq(ValueV::ObjectId(entity_id.bytes@)) },
        ]),
{
    let c1 = Cond { field: "rule_id".to_string(), test: Test::Eq(Value::ObjectId(rule_id)) };
    let c2 = Cond { field: "entity_id".to_string(), test: Test::Eq(Value::ObjectId(entity_id)) };
    let f = Filter::single(c1).with_cond(c2);
    assert(f@->Doc_0 =~= seq![
        CondV { field: "rule_id"@, test: TestV::Eq(ValueV::ObjectId(rule_id.bytes@)) },
        CondV { field: "entity_id"@, test: TestV::Eq(ValueV::ObjectId(entity_id.bytes@)) },
    ]);
    f
}

} // verus!
