//! The renewal pipeline: which status moves are allowed, and what a move
//! does to the renewal and its policy.
use vstd::prelude::*;
use crate::dates::{DAY_MS, MAX_DAY, MIN_DAY};
use crate::error::{ApiError, bad_request_chars};
use crate::filter::{
    combine_filters, combine_spec, filter_holds, lemma_all_hold_concat, lemma_all_hold_small, scalar_leaf, Cond, CondV,
    Filter, FilterV, Test, TestV,
};
use crate::oid::{hex_text, parse_opt_oid, Oid};
use crate::policies::{
    fields_view, id_if_given, lemma_optional_conds, opt_id_cond, opt_id_ok, opt_text_cond, push_field, set_field,
    text_if_given,
};
use crate::reminders::{opt_hex, opt_id_hex};
use crate::reports::{day_bounds, window_spec};
use crate::text::{chars_to_string, push_str, str_chars};
use crate::value::{lookup_value, Field, FieldV, Float, Value, ValueV};

verus! {

/// Where a renewal stands. Renewed, Lapsed and Lost are terminal outcomes.
#[derive(Clone, Copy, Debug, PartialEq, Eq, Structural)]
pub enum RenewalStatus {
    Pending,
    Contacted,
    Renewed,
    Lapsed,
    Lost,
}

/// A policy's own status; the terminal renewal outcomes mirror into it.
#[derive(Clone, Copy, Debug, PartialEq, Eq, Structural)]
pub enum PolicyStatus {
    Active,
    Renewed,
    Lapsed,
    Lost,
}

/// A renewal: the pipeline entry of a policy coming up for renewal. The
/// policy's number, customer, insurer, type, premium and end date are
/// copied onto it so dashboards and reports read renewals alone.
pub struct Renewal {
    pub id: Option<Oid>,
    pub policy_id: Oid,
    pub policy_number: String,
    pub customer_id: Oid,
    pub customer_name: String,
    pub insurer_name: String,
    pub policy_type: String,
    pub premium_due: Float,
    /// Epoch milliseconds.
    pub due_date: i64,
    pub reminder_stage: i32,
    pub status: RenewalStatus,
    pub assigned_to: Oid,
    pub last_contacted_at: Option<i64>,
    pub notes: Option<String>,
    pub created_at: i64,
}

/// Stored (serialized) name of a policy status.
pub open spec fn policy_status_key_spec(s: PolicyStatus) -> Seq<char> {
    match s {
        PolicyStatus::Active => "active"@,
        PolicyStatus::Renewed => "renewed"@,
        PolicyStatus::Lapsed => "lapsed"@,
        PolicyStatus::Lost => "lost"@,
    }
}

/// Stored (serialized) name of a policy status.
pub fn policy_status_key(s: PolicyStatus) -> (r: &'static str)
    ensures
        r@ == policy_status_key_spec(s),
{
    match s {
        PolicyStatus::Active => "active",
        PolicyStatus::Renewed => "renewed",
        PolicyStatus::Lapsed => "lapsed",
        PolicyStatus::Lost => "lost",
    }
}

/// A request to move a renewal on the board.
pub struct UpdateRenewalStatusInput {
    pub status: RenewalStatus,
    pub notes: Option<String>,
}

/// The status is a terminal outcome.
pub open spec fn is_terminal(s: RenewalStatus) -> bool {
    s is Renewed || s is Lapsed || s is Lost
}

/// The allowed moves: staying put; from Pending or Contacted to any other
/// status; from a terminal outcome only back to Pending (reopening).
pub open spec fn valid_transition(from: RenewalStatus, to: RenewalStatus) -> bool {
    if from == to {
        true
    } else {
        match from {
            RenewalStatus::Pending => !(to is Pending),
            RenewalStatus::Contacted => !(to is Contacted),
            _ => to is Pending,
        }
    }
}

/// Whether a renewal may move from `from` to `to`.
pub fn is_valid_transition(from: RenewalStatus, to: RenewalStatus) -> (r: bool)
    ensures
        r == valid_transition(from, to),
{
    if from == to {
        return true;
    }
    match from {
        RenewalStatus::Pending => matches!(to, RenewalStatus::Contacted | RenewalStatus::Renewed | RenewalStatus::Lapsed | RenewalStatus::Lost),
        RenewalStatus::Contacted => matches!(to, RenewalStatus::Pending | RenewalStatus::Renewed | RenewalStatus::Lapsed | RenewalStatus::Lost),
        RenewalStatus::Renewed | RenewalStatus::Lapsed | RenewalStatus::Lost => matches!(to, RenewalStatus::Pending),
    }
}

/// The policy status a renewal status implies: the terminal outcomes carry
/// over, the pipeline states leave the policy Active.
pub open spec fn policy_status_spec(s: RenewalStatus) -> PolicyStatus {
    match s {
        RenewalStatus::Renewed => PolicyStatus::Renewed,
        RenewalStatus::Lapsed => PolicyStatus::Lapsed,
        RenewalStatus::Lost => PolicyStatus::Lost,
        _ => PolicyStatus::Active,
    }
}

/// The policy status a renewal status implies.
pub fn policy_status_for(s: RenewalStatus) -> (r: PolicyStatus)
    ensures
        r == policy_status_spec(s),
{
    match s {
        RenewalStatus::Renewed => PolicyStatus::Renewed,
        RenewalStatus::Lapsed => PolicyStatus::Lapsed,
        RenewalStatus::Lost => PolicyStatus::Lost,
        RenewalStatus::Pending | RenewalStatus::Contacted => PolicyStatus::Active,
    }
}

/// Stored (serialized) name of a renewal status.
pub open spec fn status_key_spec(s: RenewalStatus) -> Seq<char> {
    match s {
        RenewalStatus::Pending => "pending"@,
        RenewalStatus::Contacted => "contacted"@,
        RenewalStatus::Renewed => "renewed"@,
        RenewalStatus::Lapsed => "lapsed"@,
        RenewalStatus::Lost => "lost"@,
    }
}

/// Stored (serialized) name of a renewal status.
pub fn status_key(s: RenewalStatus) -> (r: &'static str)
    ensures
        r@ == status_key_spec(s),
{
    match s {
        RenewalStatus::Pending => "pending",
        RenewalStatus::Contacted => "contacted",
        RenewalStatus::Renewed => "renewed",
        RenewalStatus::Lapsed => "lapsed",
        RenewalStatus::Lost => "lost",
    }
}

/// Debug name of a renewal status, as messages show it.
pub open spec fn status_name_spec(s: RenewalStatus) -> Seq<char> {
    match s {
        RenewalStatus::Pending => "Pending"@,
        RenewalStatus::Contacted => "Contacted"@,
        RenewalStatus::Renewed => "Renewed"@,
        RenewalStatus::Lapsed => "Lapsed"@,
        RenewalStatus::Lost => "Lost"@,
    }
}

/// Debug name of a renewal status.
pub fn status_name(s: RenewalStatus) -> (r: &'static str)
    ensures
        r@ == status_name_spec(s),
{
    match s {
        RenewalStatus::Pending => "Pending",
        RenewalStatus::Contacted => "Contacted",
        RenewalStatus::Renewed => "Renewed",
        RenewalStatus::Lapsed => "Lapsed",
        RenewalStatus::Lost => "Lost",
    }
}

/// What an allowed status move writes: the new status, a fresh
/// `last_contacted_at` when the move is to Contacted, the notes when given,
/// the status the linked policy takes, and whether the status really
/// changed (which is when workflow rules fire and the activity is logged).
pub struct StatusChange {
    pub status: RenewalStatus,
    pub stamp_last_contacted: bool,
    pub notes: Option<String>,
    pub policy_status: PolicyStatus,
    pub changed: bool,
}

/// Decides a board move of a renewal currently in `current`: a disallowed
/// move is a 400 `cannot move a renewal from <From> to <To>`.
pub fn plan_status_change(current: RenewalStatus, input: UpdateRenewalStatusInput) -> (r: Result<StatusChange, ApiError>)
    ensures
        r is Ok <==> valid_transition(current, input.status),
        r matches Ok(c) ==> {
            &&& c.status == input.status
            &&& c.stamp_last_contacted == (input.status == RenewalStatus::Contacted)
            &&& c.notes == input.notes
            &&& c.policy_status == policy_status_spec(input.status)
            &&& c.changed == (current != input.status)
        },
        r matches Err(e) ==> (e matches ApiError::BadRequest(m) && m@ == "cannot move a renewal from "@
            + status_name_spec(current) + " to "@ + status_name_spec(input.status)),
{
    if !is_valid_transition(current, input.status) {
        let mut msg = str_chars("cannot move a renewal from ");
        push_str(&mut msg, status_name(current));
        push_str(&mut msg, " to ");
        push_str(&mut msg, status_name(input.status));
        return Err(bad_request_chars(&msg));
    }
    let status = input.status;
    Ok(StatusChange {
        status,
        stamp_last_contacted: status == RenewalStatus::Contacted,
        notes: input.notes,
        policy_status: policy_status_for(status),
        changed: current != status,
    })
}

/// Activity-feed line for a board move: `moved <customer>'s <type> renewal
/// to <Status>`.
pub fn status_change_activity(customer_name: &str, policy_type: &str, to: RenewalStatus) -> (r: String)
    ensures
        r@ == "moved "@ + customer_name@ + "'s "@ + policy_type@ + " renewal to "@ + status_name_spec(to),
{
    let mut out = str_chars("moved ");
    push_str(&mut out, customer_name);
    push_str(&mut out, "'s ");
    push_str(&mut out, policy_type);
    push_str(&mut out, " renewal to ");
    push_str(&mut out, status_name(to));
    chars_to_string(&out)
}

/// Pipeline laws: every status may stay where it is and may be reopened to
/// Pending; the active states (Pending, Contacted) may move anywhere; and no
/// move goes straight from one terminal outcome to a different one.
pub proof fn lemma_transition_laws(from: RenewalStatus, to: RenewalStatus)
    ensures
        valid_transition(from, from),
        valid_transition(from, RenewalStatus::Pending),
        !is_terminal(from) ==> valid_transition(from, to),
        is_terminal(from) && is_terminal(to) && from != to ==> !valid_transition(from, to),
        is_terminal(from) && valid_transition(from, to) ==> (to == from || to == RenewalStatus::Pending),
{
}

/// The policy mirrors exactly the terminal outcomes: it stays Active while
/// the renewal is in the pipeline, and otherwise takes the outcome's name.
pub proof fn lemma_policy_mirrors_outcome(s: RenewalStatus)
    ensures
        (policy_status_spec(s) == PolicyStatus::Active) <==> !is_terminal(s),
        s == RenewalStatus::Renewed <==> policy_status_spec(s) == PolicyStatus::Renewed,
        s == RenewalStatus::Lapsed <==> policy_status_spec(s) == PolicyStatus::Lapsed,
        s == RenewalStatus::Lost <==> policy_status_spec(s) == PolicyStatus::Lost,
{
}

/// A renewal as the API returns it.
#[derive(Clone)]
pub struct RenewalResponse {
    pub id: String,
    pub policy_id: String,
    pub policy_number: String,
    pub customer_id: String,
    pub customer_name: String,
    pub insurer_name: String,
    pub policy_type: String,
    pub premium_due: Float,
    pub due_date: i64,
    pub reminder_stage: i32,
    pub status: RenewalStatus,
    pub assigned_to: String,
    pub last_contacted_at: Option<i64>,
    pub notes: Option<String>,
    pub created_at: i64,
}

impl RenewalResponse {
    /// The API form of a renewal: ids as hex (the id empty when absent).
    pub fn from_renewal(r: Renewal) -> (out: RenewalResponse)
        ensures
            out.id@ == opt_hex(r.id),
            out.policy_id@ == hex_text(r.policy_id.bytes@),
            out.policy_number == r.policy_number,
            out.customer_id@ == hex_text(r.customer_id.bytes@),
            out.customer_name == r.customer_name,
            out.insurer_name == r.insurer_name,
            out.policy_type == r.policy_type,
            out.premium_due == r.premium_due,
            out.due_date == r.due_date,
            out.reminder_stage == r.reminder_stage,
            out.status == r.status,
            out.assigned_to@ == hex_text(r.assigned_to.bytes@),
            out.last_contacted_at == r.last_contacted_at,
            out.notes == r.notes,
            out.created_at == r.created_at,
    {
        RenewalResponse {
            id: opt_id_hex(&r.id),
            policy_id: r.policy_id.to_hex(),
            policy_number: r.policy_number,
            customer_id: r.customer_id.to_hex(),
            customer_name: r.customer_name,
            insurer_name: r.insurer_name,
            policy_type: r.policy_type,
            premium_due: r.premium_due,
            due_date: r.due_date,
            reminder_stage: r.reminder_stage,
            status: r.status,
            assigned_to: r.assigned_to.to_hex(),
            last_contacted_at: r.last_contacted_at,
            notes: r.notes,
            created_at: r.created_at,
        }
    }
}

/// Filters of the renewal list: dates are epoch days.
pub struct ListRenewalsQuery {
    pub status: Option<RenewalStatus>,
    pub insurer_name: Option<String>,
    pub policy_type: Option<String>,
    pub assigned_to: Option<String>,
    pub customer_id: Option<String>,
    /// Due within this many days from now (overdue ones included).
    pub due_within_days: Option<i64>,
    /// An explicit due window, which wins over `due_within_days`.
    pub date_from: Option<i64>,
    pub date_to: Option<i64>,
}

/// The due-date condition of the renewal list: the explicit window when
/// both ends are given, else everything due by `days` from now.
pub open spec fn due_cond(q: ListRenewalsQuery, now: i64) -> Seq<CondV> {
    match (q.date_from, q.date_to) {
        (Some(a), Some(b)) => seq![window_spec("due_date"@, (a * DAY_MS) as i64, ((b + 1) * DAY_MS) as i64)],
        _ => match q.due_within_days {
            Some(d) => seq![CondV {
                field: "due_date"@,
                test: TestV::Range { gte: None, lt: None, lte: Some(ValueV::DateTime((now + d * DAY_MS) as i64)) },
            }],
            None => seq![],
        },
    }
}

/// The renewal list's conditions other than the due date.
pub open spec fn renewal_base_doc(q: ListRenewalsQuery) -> Seq<CondV> {
    let status_part = match q.status {
        Some(s) => seq![CondV { field: "status"@, test: TestV::Eq(ValueV::Str(status_key_spec(s))) }],
        None => Seq::<CondV>::empty(),
    };
    status_part + opt_text_cond("insurer_name"@, q.insurer_name) + opt_text_cond("policy_type"@, q.policy_type) + opt_id_cond(
        "assigned_to"@,
        q.assigned_to,
    ) + opt_id_cond("customer_id"@, q.customer_id)
}

/// The renewal list's own conditions, before scope.
pub open spec fn renewal_list_doc(q: ListRenewalsQuery, now: i64) -> Seq<CondV> {
    renewal_base_doc(q) + due_cond(q, now)
}

/// The query's dates stay within the calendar the server handles.
pub open spec fn renewal_query_in_range(q: ListRenewalsQuery, now: i64) -> bool {
    &&& (q.date_from matches Some(a) ==> MIN_DAY <= a <= MAX_DAY)
    &&& (q.date_to matches Some(b) ==> MIN_DAY <= b <= MAX_DAY)
    &&& (q.due_within_days matches Some(d) ==> MIN_DAY * DAY_MS <= now + d * DAY_MS <= MAX_DAY * DAY_MS && MIN_DAY <= d
        <= MAX_DAY)
}

/// Which renewals the list's due-date filter selects, for a list with no
/// other filter: with an explicit window of days `a..=b`, those due from
/// midnight of day `a` to midnight after day `b`; otherwise, with "due
/// within `d` days", every renewal due by `d` days from now, overdue ones
/// included; with neither, every renewal.
pub proof fn lemma_due_window_selects(q: ListRenewalsQuery, now: i64, r: Seq<FieldV>, due: i64)
    requires
        renewal_query_in_range(q, now),
        q.status is None,
        q.insurer_name is None,
        q.policy_type is None,
        q.assigned_to is None,
        q.customer_id is None,
        lookup_value(r, "due_date"@) == Some(ValueV::DateTime(due)),
    ensures
        ({
            let selected = filter_holds(FilterV::Doc(renewal_list_doc(q, now)), r, |c: CondV, x: Seq<FieldV>| scalar_leaf(c, x));
            match (q.date_from, q.date_to) {
                (Some(a), Some(b)) => selected <==> a * DAY_MS <= due < (b + 1) * DAY_MS,
                _ => match q.due_within_days {
                    Some(d) => {
                        &&& selected <==> due <= now + d * DAY_MS
                        &&& (0 <= d && due <= now ==> selected)
                    },
                    None => selected,
                },
            }
        }),
{
    let leaf = |c: CondV, x: Seq<FieldV>| scalar_leaf(c, x);
    let doc = renewal_list_doc(q, now);
    assert(renewal_base_doc(q) =~= Seq::<CondV>::empty());
    assert(doc =~= due_cond(q, now));
    if doc.len() == 1 {
        if leaf(doc[0], r) {
            assert forall|i: int| 0 <= i < doc.len() implies #[trigger] leaf(doc[i], r) by {}
        }
    }
}

/// Which renewals the list selects, before the caller's scope: those of the
/// status, insurer, policy type, owner and customer given (each only when
/// given) that are due within the list's due window.
pub proof fn lemma_renewal_list_selects(q: ListRenewalsQuery, now: i64, r: Seq<FieldV>, due: i64)
    requires
        renewal_query_in_range(q, now),
        lookup_value(r, "due_date"@) == Some(ValueV::DateTime(due)),
    ensures
        filter_holds(FilterV::Doc(renewal_list_doc(q, now)), r, |c: CondV, x: Seq<FieldV>| scalar_leaf(c, x)) <==> {
            &&& (q.status matches Some(st) ==> lookup_value(r, "status"@) == Some(ValueV::Str(status_key_spec(st))))
            &&& text_if_given(r, "insurer_name"@, q.insurer_name)
            &&& text_if_given(r, "policy_type"@, q.policy_type)
            &&& id_if_given(r, "assigned_to"@, q.assigned_to)
            &&& id_if_given(r, "customer_id"@, q.customer_id)
            &&& match (q.date_from, q.date_to) {
                (Some(a), Some(b)) => a * DAY_MS <= due < (b + 1) * DAY_MS,
                _ => match q.due_within_days {
                    Some(d) => due <= now + d * DAY_MS,
                    None => true,
                },
            }
        },
{
    let leaf = |c: CondV, x: Seq<FieldV>| scalar_leaf(c, x);
    let p0 = match q.status {
        Some(s) => seq![CondV { field: "status"@, test: TestV::Eq(ValueV::Str(status_key_spec(s))) }],
        None => Seq::<CondV>::empty(),
    };
    let p1 = opt_text_cond("insurer_name"@, q.insurer_name);
    let p2 = opt_text_cond("policy_type"@, q.policy_type);
    let p3 = opt_id_cond("assigned_to"@, q.assigned_to);
    let p4 = opt_id_cond("customer_id"@, q.customer_id);
    let p5 = due_cond(q, now);
    match q.status {
        Some(st) => lemma_all_hold_small(p0[0], r, leaf),
        None => lemma_all_hold_small(CondV { field: "status"@, test: TestV::Eq(ValueV::Null) }, r, leaf),
    }
    lemma_optional_conds(r, "insurer_name"@, q.insurer_name);
    lemma_optional_conds(r, "policy_type"@, q.policy_type);
    lemma_optional_conds(r, "assigned_to"@, q.assigned_to);
    lemma_optional_conds(r, "customer_id"@, q.customer_id);
    if p5.len() == 1 {
        lemma_all_hold_small(p5[0], r, leaf);
        assert(p5 =~= seq![p5[0]]);
    } else {
        lemma_all_hold_small(CondV { field: "status"@, test: TestV::Eq(ValueV::Null) }, r, leaf);
    }
    lemma_all_hold_concat(p0, p1, r, leaf);
    lemma_all_hold_concat(p0 + p1, p2, r, leaf);
    lemma_all_hold_concat(p0 + p1 + p2, p3, r, leaf);
    lemma_all_hold_concat(p0 + p1 + p2 + p3, p4, r, leaf);
    lemma_all_hold_concat(p0 + p1 + p2 + p3 + p4, p5, r, leaf);
    assert(renewal_list_doc(q, now) =~= p0 + p1 + p2 + p3 + p4 + p5);
}

/// The renewal list's filter: status, insurer, type, owner and customer
/// when given, the due window, within the caller's scope. An id that is not
/// 24 hex digits is a 400 "invalid id"; a window ending before it starts a
/// 400 too.
pub fn renewal_list_filter(q: &ListRenewalsQuery, now: i64, scope: Filter) -> (r: Result<Filter, ApiError>)
    requires
        renewal_query_in_range(*q, now),
    ensures
        r is Ok <==> opt_id_ok(q.assigned_to) && opt_id_ok(q.customer_id) && match (q.date_from, q.date_to) {
            (Some(a), Some(b)) => a <= b,
            _ => true,
        },
        r matches Ok(f) ==> f@ == combine_spec(FilterV::Doc(renewal_list_doc(*q, now)), scope@),
        r matches Err(e) ==> (e matches ApiError::BadRequest(m) && m@ == if opt_id_ok(q.assigned_to) && opt_id_ok(
            q.customer_id,
        ) {
            "date_to must be on or after date_from"@
        } else {
            "invalid id"@
        }),
{
    let owner = match parse_opt_oid(&q.assigned_to) {
        Ok(o) => o,
        Err(e) => return Err(e),
    };
    let customer = match parse_opt_oid(&q.customer_id) {
        Ok(o) => o,
        Err(e) => return Err(e),
    };
    let mut cs = renewal_base_conds(q, owner, customer);
    let mut due = match due_conds(q, now) {
        Ok(d) => d,
        Err(e) => return Err(e),
    };
    let ghost a = cs@;
    let ghost b = due@;
    cs.append(&mut due);
    let f = Filter::Doc(cs);
    assert(f@->Doc_0 =~= crate::filter::conds_view(a) + crate::filter::conds_view(b));
    Ok(combine_filters(f, scope))
}

/// Status, insurer, type, owner and customer conditions of the list.
fn renewal_base_conds(q: &ListRenewalsQuery, owner: Option<Oid>, customer: Option<Oid>) -> (cs: Vec<Cond>)
    requires
        match q.assigned_to {
            Some(s) => owner matches Some(o) && o.bytes@ == crate::oid::hex_oid_bytes(s@)->0,
            None => owner is None,
        },
        match q.customer_id {
            Some(s) => customer matches Some(o) && o.bytes@ == crate::oid::hex_oid_bytes(s@)->0,
            None => customer is None,
        },
    ensures
        crate::filter::conds_view(cs@) == renewal_base_doc(*q),
{
    let mut cs: Vec<Cond> = Vec::new();
    if let Some(s) = q.status {
        cs.push(Cond { field: "status".to_string(), test: Test::Eq(Value::Str(status_key(s).to_string())) });
    }
    if let Some(v) = &q.insurer_name {
        cs.push(Cond { field: "insurer_name".to_string(), test: Test::Eq(Value::Str(v.clone())) });
    }
    if let Some(v) = &q.policy_type {
        cs.push(Cond { field: "policy_type".to_string(), test: Test::Eq(Value::Str(v.clone())) });
    }
    if let Some(o) = owner {
        cs.push(Cond { field: "assigned_to".to_string(), test: Test::Eq(Value::ObjectId(o)) });
    }
    if let Some(o) = customer {
        cs.push(Cond { field: "customer_id".to_string(), test: Test::Eq(Value::ObjectId(o)) });
    }
    assert(crate::filter::conds_view(cs@) =~= renewal_base_doc(*q));
    cs
}

/// The due-date condition of the list (or a 400 for a backwards window).
fn due_conds(q: &ListRenewalsQuery, now: i64) -> (r: Result<Vec<Cond>, ApiError>)
    requires
        renewal_query_in_range(*q, now),
    ensures
        r is Ok <==> match (q.date_from, q.date_to) {
            (Some(a), Some(b)) => a <= b,
            _ => true,
        },
        r matches Ok(cs) ==> crate::filter::conds_view(cs@) == due_cond(*q, now),
        r matches Err(e) ==> (e matches ApiError::BadRequest(m) && m@ == "date_to must be on or after date_from"@),
{
    let mut cs: Vec<Cond> = Vec::new();
    match (q.date_from, q.date_to) {
        (Some(a), Some(b)) => {
            let (start, end) = match day_bounds(a, b) {
                Ok(w) => w,
                Err(e) => return Err(e),
            };
            cs.push(Cond {
                field: "due_date".to_string(),
                test: Test::Range { gte: Some(Value::DateTime(start)), lt: Some(Value::DateTime(end)), lte: None },
            });
        },
        _ => match q.due_within_days {
            Some(d) => {
                let cutoff = now + d * DAY_MS;
                cs.push(Cond {
                    field: "due_date".to_string(),
                    test: Test::Range { gte: None, lt: None, lte: Some(Value::DateTime(cutoff)) },
                });
            },
            None => {},
        },
    }
    assert(crate::filter::conds_view(cs@) =~= due_cond(*q, now));
    Ok(cs)
}

/// What an allowed board move sets on the renewal: the status, the
/// contact time when moved to Contacted, and the notes when given.
pub fn status_change_set(c: &StatusChange, now: i64) -> (r: Vec<Field>)
    ensures
        fields_view(r@) == seq![set_field("status"@, ValueV::Str(status_key_spec(c.status)))] + (if c.stamp_last_contacted {
            seq![set_field("last_contacted_at"@, ValueV::DateTime(now))]
        } else {
            Seq::<FieldV>::empty()
        }) + match c.notes {
            Some(n) => seq![set_field("notes"@, ValueV::Str(n@))],
            None => Seq::<FieldV>::empty(),
        },
{
    let mut fs: Vec<Field> = Vec::new();
    push_field(&mut fs, "status", Value::Str(status_key(c.status).to_string()));
    let ghost a = fields_view(fs@);
    if c.stamp_last_contacted {
        push_field(&mut fs, "last_contacted_at", Value::DateTime(now));
    }
    let ghost b = fields_view(fs@);
    if let Some(n) = &c.notes {
        push_field(&mut fs, "notes", Value::Str(n.clone()));
    }
    assert(fields_view(fs@) =~= seq![set_field("status"@, ValueV::Str(status_key_spec(c.status)))] + (if c.stamp_last_contacted {
        seq![set_field("last_contacted_at"@, ValueV::DateTime(now))]
    } else {
        Seq::<FieldV>::empty()
    }) + match c.notes {
        Some(n) => seq![set_field("notes"@, ValueV::Str(n@))],
        None => Seq::<FieldV>::empty(),
    });
    fs
}

/// What a board move sets on the renewal's policy: the mirrored status and
/// `updated_at`.
pub fn policy_mirror_set(c: &StatusChange, now: i64) -> (r: Vec<Field>)
    ensures
        fields_view(r@) == seq![
            set_field("status"@, ValueV::Str(policy_status_key_spec(c.policy_status))),
            set_field("updated_at"@, ValueV::DateTime(now)),
        ],
{
    let mut fs: Vec<Field> = Vec::new();
    push_field(&mut fs, "status", Value::Str(policy_status_key(c.policy_status).to_string()));
    push_field(&mut fs, "updated_at", Value::DateTime(now));
    assert(fields_view(fs@) =~= seq![
        set_field("status"@, ValueV::Str(policy_status_key_spec(c.policy_status))),
        set_field("updated_at"@, ValueV::DateTime(now)),
    ]);
    fs
}

} // verus!
