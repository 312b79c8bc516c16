//! Policies: creating one (with the renewal every policy gets), editing one
//! (with the copies its renewals and claims keep in step), listing them,
//! and logging follow-ups on them.
use vstd::prelude::*;
use crate::categorize::{category_filter, category_filter_spec};
use crate::error::{bad_request, ApiError};
use crate::filter::{
    all_hold, combine_filters, combine_spec, filter_holds, lemma_all_hold_concat, lemma_all_hold_small, scalar_leaf, Cond,
    CondV, Filter, FilterV, Test, TestV,
};
use crate::oid::{hex_oid_bytes, hex_text, oid_opt_view, parse_oid, parse_opt_oid, Oid};
use crate::renewal::{policy_status_key, policy_status_key_spec, PolicyStatus, Renewal, RenewalStatus};
use crate::reminders::{opt_hex, opt_id_hex};
use crate::text::{chars_to_string, contains_chars, contains_seq, lowercase, push_str, str_chars, to_lowercase};
use crate::value::{lookup_value, Field, FieldV, Float, Value, ValueV};
use crate::workflow::FollowUpType;

verus! {

broadcast use vstd::string::group_string_axioms;

/// A follow-up logged on a policy (a call, a message, a note).
pub struct FollowUp {
    pub user_id: Oid,
    pub kind: FollowUpType,
    pub content: String,
    /// Epoch milliseconds.
    pub created_at: i64,
}

/// A policy. Amounts are doubles, kept as they came; dates are epoch
/// milliseconds.
pub struct Policy {
    pub id: Option<Oid>,
    pub customer_id: Oid,
    pub insurer_name: String,
    pub policy_type: String,
    pub policy_number: String,
    pub sum_insured: Float,
    pub start_date: i64,
    pub end_date: i64,
    pub previous_year_premium: Option<Float>,
    pub current_year_premium: Float,
    pub status: PolicyStatus,
    pub previous_policy_id: Option<Oid>,
    pub assigned_to: Oid,
    pub source_document_id: Option<Oid>,
    pub follow_ups: Vec<FollowUp>,
    pub created_at: i64,
    pub updated_at: i64,
}

/// A request to create a policy; ids are hex text.
pub struct CreatePolicyInput {
    pub customer_id: String,
    pub insurer_name: String,
    pub policy_type: String,
    pub policy_number: String,
    pub sum_insured: Float,
    pub start_date: i64,
    pub end_date: i64,
    pub previous_year_premium: Option<Float>,
    pub current_year_premium: Float,
    pub previous_policy_id: Option<String>,
    pub assigned_to: Option<String>,
    pub source_document_id: Option<String>,
}

/// A partial edit of a policy: only the fields given change.
pub struct UpdatePolicyInput {
    pub insurer_name: Option<String>,
    pub policy_type: Option<String>,
    pub policy_number: Option<String>,
    pub sum_insured: Option<Float>,
    pub start_date: Option<i64>,
    pub end_date: Option<i64>,
    pub previous_year_premium: Option<Float>,
    pub current_year_premium: Option<Float>,
    pub status: Option<PolicyStatus>,
    pub assigned_to: Option<String>,
}

/// Filters of the policy list; ids are hex text.
pub struct ListPoliciesQuery {
    pub customer_id: Option<String>,
    pub insurer_name: Option<String>,
    pub policy_type: Option<String>,
    /// Keyword bucket (Life, Health, Motor, Other), unlike the exact
    /// `policy_type`.
    pub category: Option<String>,
    pub assigned_to: Option<String>,
    pub status: Option<PolicyStatus>,
}

/// A follow-up to log on a policy.
pub struct AddFollowUpInput {
    pub kind: FollowUpType,
    pub content: String,
}

/// A follow-up as the API returns it.
pub struct FollowUpResponse {
    pub user_id: String,
    pub kind: FollowUpType,
    pub content: String,
    pub created_at: i64,
}

/// A policy as the API returns it: ids as hex.
pub struct PolicyResponse {
    pub id: String,
    pub customer_id: String,
    pub insurer_name: String,
    pub policy_type: String,
    pub policy_number: String,
    pub sum_insured: Float,
    pub start_date: i64,
    pub end_date: i64,
    pub previous_year_premium: Option<Float>,
    pub current_year_premium: Float,
    pub status: PolicyStatus,
    pub previous_policy_id: Option<String>,
    pub assigned_to: String,
    pub source_document_id: Option<String>,
    pub follow_ups: Vec<FollowUpResponse>,
    pub created_at: i64,
    pub updated_at: i64,
}

/// The text is a valid id.
pub open spec fn id_ok(s: Seq<char>) -> bool {
    hex_oid_bytes(s) is Some
}

/// An optional id is absent or valid.
pub open spec fn opt_id_ok(s: Option<String>) -> bool {
    match s {
        Some(x) => id_ok(x@),
        None => true,
    }
}

/// The bytes an optional id text denotes.
pub open spec fn opt_id_bytes(s: Option<String>) -> Option<Seq<u8>> {
    match s {
        Some(x) => Some(hex_oid_bytes(x@)->0),
        None => None,
    }
}

/// Hex of an optional id, kept optional.
pub open spec fn opt_hex_text(o: Option<Oid>) -> Option<Seq<char>> {
    match o {
        Some(x) => Some(hex_text(x.bytes@)),
        None => None,
    }
}

/// Hex of an optional id, kept optional.
pub fn opt_to_hex(o: &Option<Oid>) -> (r: Option<String>)
    ensures
        match r {
            Some(s) => opt_hex_text(*o) == Some(s@),
            None => o is None,
        },
{
    match o {
        Some(x) => Some(x.to_hex()),
        None => None,
    }
}

/// The policy a create request describes, owned by the given owner or the
/// caller, Active, with no follow-ups, created and updated `now`. Any id
/// that is not 24 hex digits is a 400 "invalid id".
pub fn new_policy(input: CreatePolicyInput, caller: Oid, now: i64) -> (r: Result<Policy, ApiError>)
    ensures
        r is Ok <==> id_ok(input.customer_id@) && opt_id_ok(input.previous_policy_id) && opt_id_ok(
            input.source_document_id,
        ) && opt_id_ok(input.assigned_to),
        r matches Err(e) ==> (e matches ApiError::BadRequest(m) && m@ == "invalid id"@),
        r matches Ok(p) ==> {
            &&& p.id is None
            &&& p.customer_id.bytes@ == hex_oid_bytes(input.customer_id@)->0
            &&& p.insurer_name == input.insurer_name
            &&& p.policy_type == input.policy_type
            &&& p.policy_number == input.policy_number
            &&& p.sum_insured == input.sum_insured
            &&& p.start_date == input.start_date
            &&& p.end_date == input.end_date
            &&& p.previous_year_premium == input.previous_year_premium
            &&& p.current_year_premium == input.current_year_premium
            &&& p.status == PolicyStatus::Active
            &&& oid_opt_view(p.previous_policy_id) == opt_id_bytes(input.previous_policy_id)
            &&& p.assigned_to.bytes@ == match input.assigned_to {
                Some(s) => hex_oid_bytes(s@)->0,
                None => caller.bytes@,
            }
            &&& oid_opt_view(p.source_document_id) == opt_id_bytes(input.source_document_id)
            &&& p.follow_ups@.len() == 0
            &&& p.created_at == now
            &&& p.updated_at == now
        },
{
    let customer_id = match parse_oid(input.customer_id.as_str()) {
        Ok(o) => o,
        Err(e) => return Err(e),
    };
    let previous_policy_id = match parse_opt_oid(&input.previous_policy_id) {
        Ok(o) => o,
        Err(e) => return Err(e),
    };
    let source_document_id = match parse_opt_oid(&input.source_document_id) {
        Ok(o) => o,
        Err(e) => return Err(e),
    };
    let assigned_to = match &input.assigned_to {
        Some(id) => match parse_oid(id.as_str()) {
            Ok(o) => o,
            Err(e) => return Err(e),
        },
        None => caller,
    };
    Ok(Policy {
        id: None,
        customer_id,
        insurer_name: input.insurer_name,
        policy_type: input.policy_type,
        policy_number: input.policy_number,
        sum_insured: input.sum_insured,
        start_date: input.start_date,
        end_date: input.end_date,
        previous_year_premium: input.previous_year_premium,
        current_year_premium: input.current_year_premium,
        status: PolicyStatus::Active,
        previous_policy_id,
        assigned_to,
        source_document_id,
        follow_ups: Vec::new(),
        created_at: now,
        updated_at: now,
    })
}

/// The customer a new policy names must exist: a 400 "customer not found"
/// otherwise.
pub fn require_customer<T>(customer: Option<T>) -> (r: Result<T, ApiError>)
    ensures
        match customer {
            Some(c) => r == Ok::<T, ApiError>(c),
            None => r matches Err(e) && e matches ApiError::BadRequest(m) && m@ == "customer not found"@,
        },
{
    match customer {
        Some(c) => Ok(c),
        None => Err(bad_request("customer not found")),
    }
}

/// The renewal every new policy gets: pending, at stage 0, due when the
/// policy ends, for the policy's current premium, with the policy's number,
/// customer, insurer, type and owner copied onto it.
pub fn renewal_for_policy(p: &Policy, policy_id: Oid, customer_name: String, now: i64) -> (r: Renewal)
    ensures
        r.id is None,
        r.policy_id == policy_id,
        r.policy_number@ == p.policy_number@,
        r.customer_id == p.customer_id,
        r.customer_name == customer_name,
        r.insurer_name@ == p.insurer_name@,
        r.policy_type@ == p.policy_type@,
        r.premium_due.bits == p.current_year_premium.bits,
        r.premium_due.text@ == p.current_year_premium.text@,
        r.due_date == p.end_date,
        r.reminder_stage == 0,
        r.status == RenewalStatus::Pending,
        r.assigned_to == p.assigned_to,
        r.last_contacted_at is None,
        r.notes is None,
        r.created_at == now,
{
    Renewal {
        id: None,
        policy_id,
        policy_number: p.policy_number.clone(),
        customer_id: p.customer_id,
        customer_name,
        insurer_name: p.insurer_name.clone(),
        policy_type: p.policy_type.clone(),
        premium_due: p.current_year_premium.duplicate(),
        due_date: p.end_date,
        reminder_stage: 0,
        status: RenewalStatus::Pending,
        assigned_to: p.assigned_to,
        last_contacted_at: None,
        notes: None,
        created_at: now,
    }
}

/// A failed policy insert: a duplicate policy number (the database's
/// "duplicate key" error) is a 409, anything else a database error.
pub fn policy_insert_error(message: &str) -> (e: ApiError)
    ensures
        contains_seq(message@, "duplicate key"@) ==> (e matches ApiError::Conflict(m) && m@
            == "a policy with this policy number already exists"@),
        !contains_seq(message@, "duplicate key"@) ==> (e matches ApiError::Database(m) && m@ == message@),
{
    let cs = str_chars(message);
    let pat = str_chars("duplicate key");
    if contains_chars(&cs, &pat) {
        ApiError::Conflict("a policy with this policy number already exists".to_string())
    } else {
        ApiError::Database(message.to_string())
    }
}

/// Activity-feed line for a new policy: `added a new <type> policy for
/// <customer>`.
pub fn policy_created_activity(policy_type: &str, customer_name: &str) -> (r: String)
    ensures
        r@ == "added a new "@ + policy_type@ + " policy for "@ + customer_name@,
{
    let mut out = str_chars("added a new ");
    push_str(&mut out, policy_type);
    push_str(&mut out, " policy for ");
    push_str(&mut out, customer_name);
    chars_to_string(&out)
}

/// Debug name of a follow-up kind.
pub open spec fn follow_up_kind_name(k: FollowUpType) -> Seq<char> {
    match k {
        FollowUpType::Call => "Call"@,
        FollowUpType::Whatsapp => "Whatsapp"@,
        FollowUpType::Email => "Email"@,
        FollowUpType::Note => "Note"@,
    }
}

/// Activity-feed line for a follow-up: `logged a <Kind> follow-up on
/// <customer>` (nothing after "on" when the customer is unknown).
pub fn follow_up_activity(kind: FollowUpType, customer_name: &Option<String>) -> (r: String)
    ensures
        r@ == "logged a "@ + follow_up_kind_name(kind) + " follow-up on "@ + match customer_name {
            Some(n) => n@,
            None => Seq::<char>::empty(),
        },
{
    let mut out = str_chars("logged a ");
    let name = match kind {
        FollowUpType::Call => "Call",
        FollowUpType::Whatsapp => "Whatsapp",
        FollowUpType::Email => "Email",
        FollowUpType::Note => "Note",
    };
    push_str(&mut out, name);
    push_str(&mut out, " follow-up on ");
    match customer_name {
        Some(n) => push_str(&mut out, n.as_str()),
        None => {
            assert(out@ =~= out@ + Seq::<char>::empty());
        },
    }
    chars_to_string(&out)
}

/// The follow-up a request logs, by the caller, at `now`.
pub fn new_follow_up(input: AddFollowUpInput, caller: Oid, now: i64) -> (f: FollowUp)
    ensures
        f.user_id == caller,
        f.kind == input.kind,
        f.content == input.content,
        f.created_at == now,
{
    FollowUp { user_id: caller, kind: input.kind, content: input.content, created_at: now }
}

/// View of a written field: no numeric key.
pub open spec fn set_field(key: Seq<char>, value: ValueV) -> FieldV {
    FieldV { key, value, rank: None }
}

/// `key: text` when a text is given.
pub open spec fn opt_text_field(key: Seq<char>, v: Option<String>) -> Seq<FieldV> {
    match v {
        Some(s) => seq![set_field(key, ValueV::Str(s@))],
        None => seq![],
    }
}

/// `key: number` when a number is given.
pub open spec fn opt_float_field(key: Seq<char>, v: Option<Float>) -> Seq<FieldV> {
    match v {
        Some(f) => seq![set_field(key, ValueV::Double(f.bits, f.text@))],
        None => seq![],
    }
}

/// `key: timestamp` when one is given.
pub open spec fn opt_date_field(key: Seq<char>, v: Option<i64>) -> Seq<FieldV> {
    match v {
        Some(ms) => seq![set_field(key, ValueV::DateTime(ms))],
        None => seq![],
    }
}

/// `key: id` when an id text is given (it must be valid).
pub open spec fn opt_id_field(key: Seq<char>, v: Option<String>) -> Seq<FieldV> {
    match v {
        Some(s) => seq![set_field(key, ValueV::ObjectId(hex_oid_bytes(s@)->0))],
        None => seq![],
    }
}

/// What a policy edit sets on the policy, in order: `updated_at`, then each
/// given field.
pub open spec fn policy_set_spec(input: UpdatePolicyInput, now: i64) -> Seq<FieldV> {
    seq![set_field("updated_at"@, ValueV::DateTime(now))] + opt_text_field("insurer_name"@, input.insurer_name)
        + opt_text_field("policy_type"@, input.policy_type) + opt_text_field("policy_number"@, input.policy_number)
        + opt_float_field("sum_insured"@, input.sum_insured) + opt_date_field("start_date"@, input.start_date)
        + opt_date_field("end_date"@, input.end_date) + opt_float_field(
        "previous_year_premium"@,
        input.previous_year_premium,
    ) + opt_float_field("current_year_premium"@, input.current_year_premium) + match input.status {
        Some(st) => seq![set_field("status"@, ValueV::Str(policy_status_key_spec(st)))],
        None => seq![],
    } + opt_id_field("assigned_to"@, input.assigned_to)
}

/// What the same edit sets on the policy's renewals: the copied fields.
pub open spec fn renewal_set_spec(input: UpdatePolicyInput) -> Seq<FieldV> {
    opt_text_field("insurer_name"@, input.insurer_name) + opt_text_field("policy_type"@, input.policy_type)
        + opt_text_field("policy_number"@, input.policy_number) + opt_date_field("due_date"@, input.end_date)
        + opt_float_field("premium_due"@, input.current_year_premium) + opt_id_field("assigned_to"@, input.assigned_to)
}

/// What the same edit sets on the policy's claims: the copied fields.
pub open spec fn claim_set_spec(input: UpdatePolicyInput) -> Seq<FieldV> {
    opt_text_field("insurer_name"@, input.insurer_name) + opt_text_field("policy_type"@, input.policy_type)
        + opt_text_field("policy_number"@, input.policy_number)
}

/// The three `$set` documents of a policy edit.
pub struct PolicyUpdate {
    pub policy_set: Vec<Field>,
    pub renewal_set: Vec<Field>,
    pub claim_set: Vec<Field>,
}

/// Views of written fields.
pub open spec fn fields_view(fs: Seq<Field>) -> Seq<FieldV> {
    fs.map_values(|f: Field| f@)
}

/// Appends `key: value` (no numeric key).
pub(crate) fn push_field(fs: &mut Vec<Field>, key: &str, value: Value)
    ensures
        fields_view(final(fs)@) == fields_view(old(fs)@).push(set_field(key@, value@)),
{
    let ghost v = value@;
    fs.push(Field { key: key.to_string(), value, rank: None });
    assert(fields_view(fs@) =~= fields_view(old(fs)@).push(set_field(key@, v)));
}

/// Appends the text field when given.
pub(crate) fn push_opt_text(fs: &mut Vec<Field>, key: &str, v: &Option<String>)
    ensures
        fields_view(final(fs)@) == fields_view(old(fs)@) + opt_text_field(key@, *v),
{
    match v {
        Some(s) => push_field(fs, key, Value::Str(s.clone())),
        None => {
            assert(fields_view(fs@) =~= fields_view(fs@) + opt_text_field(key@, *v));
        },
    }
}

/// Appends the number field when given.
pub(crate) fn push_opt_float(fs: &mut Vec<Field>, key: &str, v: &Option<Float>)
    ensures
        fields_view(final(fs)@) == fields_view(old(fs)@) + opt_float_field(key@, *v),
{
    match v {
        Some(f) => push_field(fs, key, Value::Double(f.duplicate())),
        None => {
            assert(fields_view(fs@) =~= fields_view(fs@) + opt_float_field(key@, *v));
        },
    }
}

/// Appends the timestamp field when given.
pub(crate) fn push_opt_date(fs: &mut Vec<Field>, key: &str, v: Option<i64>)
    ensures
        fields_view(final(fs)@) == fields_view(old(fs)@) + opt_date_field(key@, v),
{
    match v {
        Some(ms) => push_field(fs, key, Value::DateTime(ms)),
        None => {
            assert(fields_view(fs@) =~= fields_view(fs@) + opt_date_field(key@, v));
        },
    }
}

/// Appends the id field when given.
pub(crate) fn push_opt_id(fs: &mut Vec<Field>, key: &str, v: Option<Oid>, text: &Option<String>)
    requires
        match *text {
            Some(s) => v matches Some(o) && o.bytes@ == hex_oid_bytes(s@)->0,
            None => v is None,
        },
    ensures
        fields_view(final(fs)@) == fields_view(old(fs)@) + opt_id_field(key@, *text),
{
    match v {
        Some(o) => push_field(fs, key, Value::ObjectId(o)),
        None => {
            assert(fields_view(fs@) =~= fields_view(fs@) + opt_id_field(key@, *text));
        },
    }
}

/// The policy's `$set` of an edit; `owner` is the parsed owner id.
fn policy_set_fields(input: &UpdatePolicyInput, now: i64, owner: Option<Oid>) -> (p: Vec<Field>)
    requires
        match input.assigned_to {
            Some(s) => owner matches Some(o) && o.bytes@ == hex_oid_bytes(s@)->0,
            None => owner is None,
        },
    ensures
        fields_view(p@) == policy_set_spec(*input, now),
{
    let mut p: Vec<Field> = Vec::new();
    push_field(&mut p, "updated_at", Value::DateTime(now));
    push_opt_text(&mut p, "insurer_name", &input.insurer_name);
    push_opt_text(&mut p, "policy_type", &input.policy_type);
    push_opt_text(&mut p, "policy_number", &input.policy_number);
    push_opt_float(&mut p, "sum_insured", &input.sum_insured);
    push_opt_date(&mut p, "start_date", input.start_date);
    push_opt_date(&mut p, "end_date", input.end_date);
    push_opt_float(&mut p, "previous_year_premium", &input.previous_year_premium);
    push_opt_float(&mut p, "current_year_premium", &input.current_year_premium);
    let ghost before = fields_view(p@);
    match input.status {
        Some(st) => push_field(&mut p, "status", Value::Str(policy_status_key(st).to_string())),
        None => {},
    }
    assert(fields_view(p@) =~= before + match input.status {
        Some(st) => seq![set_field("status"@, ValueV::Str(policy_status_key_spec(st)))],
        None => Seq::<FieldV>::empty(),
    });
    push_opt_id(&mut p, "assigned_to", owner, &input.assigned_to);
    assert(fields_view(p@) =~= policy_set_spec(*input, now));
    p
}

/// The renewals' `$set` of an edit.
fn renewal_set_fields(input: &UpdatePolicyInput, owner: Option<Oid>) -> (rs: Vec<Field>)
    requires
        match input.assigned_to {
            Some(s) => owner matches Some(o) && o.bytes@ == hex_oid_bytes(s@)->0,
            None => owner is None,
        },
    ensures
        fields_view(rs@) == renewal_set_spec(*input),
{
    let mut rs: Vec<Field> = Vec::new();
    push_opt_text(&mut rs, "insurer_name", &input.insurer_name);
    push_opt_text(&mut rs, "policy_type", &input.policy_type);
    push_opt_text(&mut rs, "policy_number", &input.policy_number);
    push_opt_date(&mut rs, "due_date", input.end_date);
    push_opt_float(&mut rs, "premium_due", &input.current_year_premium);
    push_opt_id(&mut rs, "assigned_to", owner, &input.assigned_to);
    assert(fields_view(rs@) =~= renewal_set_spec(*input));
    rs
}

/// The claims' `$set` of an edit.
fn claim_set_fields(input: &UpdatePolicyInput) -> (cs: Vec<Field>)
    ensures
        fields_view(cs@) == claim_set_spec(*input),
{
    let mut cs: Vec<Field> = Vec::new();
    push_opt_text(&mut cs, "insurer_name", &input.insurer_name);
    push_opt_text(&mut cs, "policy_type", &input.policy_type);
    push_opt_text(&mut cs, "policy_number", &input.policy_number);
    assert(fields_view(cs@) =~= claim_set_spec(*input));
    cs
}

/// The `$set` documents of a policy edit: on the policy, `updated_at` and
/// each given field; on its renewals and claims, the given fields they
/// copy (a new end date is the renewal's due date, a new current premium
/// its premium due). An owner id that is not 24 hex digits is a 400.
pub fn policy_updates(input: &UpdatePolicyInput, now: i64) -> (r: Result<PolicyUpdate, ApiError>)
    ensures
        r is Ok <==> opt_id_ok(input.assigned_to),
        r matches Err(e) ==> (e matches ApiError::BadRequest(m) && m@ == "invalid id"@),
        r matches Ok(u) ==> fields_view(u.policy_set@) == policy_set_spec(*input, now) && fields_view(u.renewal_set@)
            == renewal_set_spec(*input) && fields_view(u.claim_set@) == claim_set_spec(*input),
{
    let owner = match parse_opt_oid(&input.assigned_to) {
        Ok(o) => o,
        Err(e) => return Err(e),
    };
    let p = policy_set_fields(input, now, owner);
    let rs = renewal_set_fields(input, owner);
    let cs = claim_set_fields(input);
    Ok(PolicyUpdate { policy_set: p, renewal_set: rs, claim_set: cs })
}

/// The field a renewal copies from a policy field, if it copies it.
pub open spec fn renewal_copy_of(key: Seq<char>) -> Option<Seq<char>> {
    if key == "insurer_name"@ || key == "policy_type"@ || key == "policy_number"@ || key == "assigned_to"@ {
        Some(key)
    } else if key == "end_date"@ {
        Some("due_date"@)
    } else if key == "current_year_premium"@ {
        Some("premium_due"@)
    } else {
        None
    }
}

/// The field a claim copies from a policy field, if it copies it.
pub open spec fn claim_copy_of(key: Seq<char>) -> Option<Seq<char>> {
    if key == "insurer_name"@ || key == "policy_type"@ || key == "policy_number"@ {
        Some(key)
    } else {
        None
    }
}

/// The part of a policy `$set` that a copy (renewal or claim) takes over,
/// under the copy's field names, in the same order.
pub open spec fn projection(s: Seq<FieldV>, copy: spec_fn(Seq<char>) -> Option<Seq<char>>) -> Seq<FieldV>
    decreases s.len(),
{
    if s.len() == 0 {
        seq![]
    } else {
        let f = s.last();
        projection(s.drop_last(), copy) + match copy(f.key) {
            Some(k) => seq![FieldV { key: k, value: f.value, rank: f.rank }],
            None => seq![],
        }
    }
}

/// Projection distributes over concatenation.
proof fn lemma_projection_append(a: Seq<FieldV>, b: Seq<FieldV>, copy: spec_fn(Seq<char>) -> Option<Seq<char>>)
    ensures
        projection(a + b, copy) == projection(a, copy) + projection(b, copy),
    decreases b.len(),
{
    if b.len() == 0 {
        assert(a + b =~= a);
        assert(projection(a, copy) + projection(b, copy) =~= projection(a, copy));
    } else {
        assert((a + b).drop_last() =~= a + b.drop_last());
        assert((a + b).last() == b.last());
        lemma_projection_append(a, b.drop_last(), copy);
    }
}

/// A one-field projection.
proof fn lemma_projection_single(f: FieldV, copy: spec_fn(Seq<char>) -> Option<Seq<char>>)
    ensures
        projection(seq![f], copy) == match copy(f.key) {
            Some(k) => seq![FieldV { key: k, value: f.value, rank: f.rank }],
            None => Seq::<FieldV>::empty(),
        },
{
    assert(seq![f].drop_last() =~= Seq::<FieldV>::empty());
    assert(projection(Seq::<FieldV>::empty(), copy) =~= Seq::<FieldV>::empty());
}

/// Which policy fields renewals and claims copy, and under which names.
proof fn lemma_copy_keys()
    ensures
        renewal_copy_of("updated_at"@) == None::<Seq<char>>,
        renewal_copy_of("insurer_name"@) == Some("insurer_name"@),
        renewal_copy_of("policy_type"@) == Some("policy_type"@),
        renewal_copy_of("policy_number"@) == Some("policy_number"@),
        renewal_copy_of("sum_insured"@) == None::<Seq<char>>,
        renewal_copy_of("start_date"@) == None::<Seq<char>>,
        renewal_copy_of("end_date"@) == Some("due_date"@),
        renewal_copy_of("previous_year_premium"@) == None::<Seq<char>>,
        renewal_copy_of("current_year_premium"@) == Some("premium_due"@),
        renewal_copy_of("status"@) == None::<Seq<char>>,
        renewal_copy_of("assigned_to"@) == Some("assigned_to"@),
        claim_copy_of("updated_at"@) == None::<Seq<char>>,
        claim_copy_of("insurer_name"@) == Some("insurer_name"@),
        claim_copy_of("policy_type"@) == Some("policy_type"@),
        claim_copy_of("policy_number"@) == Some("policy_number"@),
        claim_copy_of("sum_insured"@) == None::<Seq<char>>,
        claim_copy_of("start_date"@) == None::<Seq<char>>,
        claim_copy_of("end_date"@) == None::<Seq<char>>,
        claim_copy_of("previous_year_premium"@) == None::<Seq<char>>,
        claim_copy_of("current_year_premium"@) == None::<Seq<char>>,
        claim_copy_of("status"@) == None::<Seq<char>>,
        claim_copy_of("assigned_to"@) == None::<Seq<char>>,
{
    reveal_strlit("updated_at");
    reveal_strlit("insurer_name");
    reveal_strlit("policy_type");
    reveal_strlit("policy_number");
    reveal_strlit("sum_insured");
    reveal_strlit("start_date");
    reveal_strlit("end_date");
    reveal_strlit("previous_year_premium");
    reveal_strlit("current_year_premium");
    reveal_strlit("status");
    reveal_strlit("assigned_to");
    reveal_strlit("due_date");
    reveal_strlit("premium_due");
    assert("updated_at"@[0] != "insurer_name"@[0]);
    assert("updated_at"@[0] != "policy_type"@[0]);
    assert("updated_at"@[0] != "policy_number"@[0]);
    assert("updated_at"@[0] != "assigned_to"@[0]);
    assert("updated_at"@[0] != "end_date"@[0]);
    assert("updated_at"@[0] != "current_year_premium"@[0]);
    assert("insurer_name"@[0] != "policy_type"@[0]);
    assert("insurer_name"@[0] != "policy_number"@[0]);
    assert("insurer_name"@[0] != "assigned_to"@[0]);
    assert("insurer_name"@[0] != "end_date"@[0]);
    assert("insurer_name"@[0] != "current_year_premium"@[0]);
    assert("policy_type"@[0] != "insurer_name"@[0]);
    assert("policy_type"@[7] != "policy_number"@[7]);
    assert("policy_type"@[0] != "assigned_to"@[0]);
    assert("policy_type"@[0] != "end_date"@[0]);
    assert("policy_type"@[0] != "current_year_premium"@[0]);
    assert("policy_number"@[0] != "insurer_name"@[0]);
    assert("policy_number"@[7] != "policy_type"@[7]);
    assert("policy_number"@[0] != "assigned_to"@[0]);
    assert("policy_number"@[0] != "end_date"@[0]);
    assert("policy_number"@[0] != "current_year_premium"@[0]);
    assert("sum_insured"@[0] != "insurer_name"@[0]);
    assert("sum_insured"@[0] != "policy_type"@[0]);
    assert("sum_insured"@[0] != "policy_number"@[0]);
    assert("sum_insured"@[0] != "assigned_to"@[0]);
    assert("sum_insured"@[0] != "end_date"@[0]);
    assert("sum_insured"@[0] != "current_year_premium"@[0]);
    assert("start_date"@[0] != "insurer_name"@[0]);
    assert("start_date"@[0] != "policy_type"@[0]);
    assert("start_date"@[0] != "policy_number"@[0]);
    assert("start_date"@[0] != "assigned_to"@[0]);
    assert("start_date"@[0] != "end_date"@[0]);
    assert("start_date"@[0] != "current_year_premium"@[0]);
    assert("end_date"@[0] != "insurer_name"@[0]);
    assert("end_date"@[0] != "policy_type"@[0]);
    assert("end_date"@[0] != "policy_number"@[0]);
    assert("end_date"@[0] != "assigned_to"@[0]);
    assert("end_date"@[0] != "current_year_premium"@[0]);
    assert("previous_year_premium"@[0] != "insurer_name"@[0]);
    assert("previous_year_premium"@[1] != "policy_type"@[1]);
    assert("previous_year_premium"@[1] != "policy_number"@[1]);
    assert("previous_year_premium"@[0] != "assigned_to"@[0]);
    assert("previous_year_premium"@[0] != "end_date"@[0]);
    assert("previous_year_premium"@[0] != "current_year_premium"@[0]);
    assert("current_year_premium"@[0] != "insurer_name"@[0]);
    assert("current_year_premium"@[0] != "policy_type"@[0]);
    assert("current_year_premium"@[0] != "policy_number"@[0]);
    assert("current_year_premium"@[0] != "assigned_to"@[0]);
    assert("current_year_premium"@[0] != "end_date"@[0]);
    assert("status"@[0] != "insurer_name"@[0]);
    assert("status"@[0] != "policy_type"@[0]);
    assert("status"@[0] != "policy_number"@[0]);
    assert("status"@[0] != "assigned_to"@[0]);
    assert("status"@[0] != "end_date"@[0]);
    assert("status"@[0] != "current_year_premium"@[0]);
    assert("assigned_to"@[0] != "insurer_name"@[0]);
    assert("assigned_to"@[0] != "policy_type"@[0]);
    assert("assigned_to"@[0] != "policy_number"@[0]);
    assert("assigned_to"@[0] != "end_date"@[0]);
    assert("assigned_to"@[0] != "current_year_premium"@[0]);
}

/// Projection of a part of at most one field.
proof fn lemma_projection_part(part: Seq<FieldV>, copy: spec_fn(Seq<char>) -> Option<Seq<char>>)
    requires
        part.len() <= 1,
    ensures
        part.len() == 0 ==> projection(part, copy) == Seq::<FieldV>::empty(),
        part.len() == 1 ==> projection(part, copy) == match copy(part[0].key) {
            Some(k) => seq![FieldV { key: k, value: part[0].value, rank: part[0].rank }],
            None => Seq::<FieldV>::empty(),
        },
{
    if part.len() == 1 {
        assert(part =~= seq![part[0]]);
        lemma_projection_single(part[0], copy);
    }
}

/// An edit keeps a policy's copies in step: what it sets on the policy's
/// renewals is exactly what it sets on the policy, restricted to the fields
/// a renewal copies (under the renewal's names: the end date is the due
/// date, the current premium the premium due), in the same order; and
/// likewise for the policy's claims. No other field of a renewal or claim
/// is written, and no copied field is left stale.
pub proof fn lemma_edit_keeps_copies_in_step(input: UpdatePolicyInput, now: i64)
    ensures
        renewal_set_spec(input) == projection(policy_set_spec(input, now), |k: Seq<char>| renewal_copy_of(k)),
        claim_set_spec(input) == projection(policy_set_spec(input, now), |k: Seq<char>| claim_copy_of(k)),
{
    lemma_copy_keys();
    let rc = |k: Seq<char>| renewal_copy_of(k);
    let cc = |k: Seq<char>| claim_copy_of(k);
    let p0 = seq![set_field("updated_at"@, ValueV::DateTime(now))];
    lemma_projection_part(p0, rc);
    lemma_projection_part(p0, cc);
    let p1 = opt_text_field("insurer_name"@, input.insurer_name);
    lemma_projection_part(p1, rc);
    lemma_projection_part(p1, cc);
    let p2 = opt_text_field("policy_type"@, input.policy_type);
    lemma_projection_part(p2, rc);
    lemma_projection_part(p2, cc);
    let p3 = opt_text_field("policy_number"@, input.policy_number);
    lemma_projection_part(p3, rc);
    lemma_projection_part(p3, cc);
    let p4 = opt_float_field("sum_insured"@, input.sum_insured);
    lemma_projection_part(p4, rc);
    lemma_projection_part(p4, cc);
    let p5 = opt_date_field("start_date"@, input.start_date);
    lemma_projection_part(p5, rc);
    lemma_projection_part(p5, cc);
    let p6 = opt_date_field("end_date"@, input.end_date);
    lemma_projection_part(p6, rc);
    lemma_projection_part(p6, cc);
    let p7 = opt_float_field("previous_year_premium"@, input.previous_year_premium);
    lemma_projection_part(p7, rc);
    lemma_projection_part(p7, cc);
    let p8 = opt_float_field("current_year_premium"@, input.current_year_premium);
    lemma_projection_part(p8, rc);
    lemma_projection_part(p8, cc);
    let p9 = match input.status {
        Some(st) => seq![set_field("status"@, ValueV::Str(policy_status_key_spec(st)))],
        None => Seq::<FieldV>::empty(),
    };
    lemma_projection_part(p9, rc);
    lemma_projection_part(p9, cc);
    let p10 = opt_id_field("assigned_to"@, input.assigned_to);
    lemma_projection_part(p10, rc);
    lemma_projection_part(p10, cc);
    assert(projection(p0, rc) =~= Seq::<FieldV>::empty());
    assert(projection(p1, rc) =~= opt_text_field("insurer_name"@, input.insurer_name));
    assert(projection(p2, rc) =~= opt_text_field("policy_type"@, input.policy_type));
    assert(projection(p3, rc) =~= opt_text_field("policy_number"@, input.policy_number));
    assert(projection(p4, rc) =~= Seq::<FieldV>::empty());
    assert(projection(p5, rc) =~= Seq::<FieldV>::empty());
    assert(projection(p6, rc) =~= opt_date_field("due_date"@, input.end_date));
    assert(projection(p7, rc) =~= Seq::<FieldV>::empty());
    assert(projection(p8, rc) =~= opt_float_field("premium_due"@, input.current_year_premium));
    assert(projection(p9, rc) =~= Seq::<FieldV>::empty());
    assert(projection(p10, rc) =~= opt_id_field("assigned_to"@, input.assigned_to));
    assert(projection(p0, cc) =~= Seq::<FieldV>::empty());
    assert(projection(p1, cc) =~= opt_text_field("insurer_name"@, input.insurer_name));
    assert(projection(p2, cc) =~= opt_text_field("policy_type"@, input.policy_type));
    assert(projection(p3, cc) =~= opt_text_field("policy_number"@, input.policy_number));
    assert(projection(p4, cc) =~= Seq::<FieldV>::empty());
    assert(projection(p5, cc) =~= Seq::<FieldV>::empty());
    assert(projection(p6, cc) =~= Seq::<FieldV>::empty());
    assert(projection(p7, cc) =~= Seq::<FieldV>::empty());
    assert(projection(p8, cc) =~= Seq::<FieldV>::empty());
    assert(projection(p9, cc) =~= Seq::<FieldV>::empty());
    assert(projection(p10, cc) =~= Seq::<FieldV>::empty());
    let a0 = p0;
    let a1 = a0 + p1;
    lemma_projection_append(a0, p1, rc);
    lemma_projection_append(a0, p1, cc);
    let a2 = a1 + p2;
    lemma_projection_append(a1, p2, rc);
    lemma_projection_append(a1, p2, cc);
    let a3 = a2 + p3;
    lemma_projection_append(a2, p3, rc);
    lemma_projection_append(a2, p3, cc);
    let a4 = a3 + p4;
    lemma_projection_append(a3, p4, rc);
    lemma_projection_append(a3, p4, cc);
    let a5 = a4 + p5;
    lemma_projection_append(a4, p5, rc);
    lemma_projection_append(a4, p5, cc);
    let a6 = a5 + p6;
    lemma_projection_append(a5, p6, rc);
    lemma_projection_append(a5, p6, cc);
    let a7 = a6 + p7;
    lemma_projection_append(a6, p7, rc);
    lemma_projection_append(a6, p7, cc);
    let a8 = a7 + p8;
    lemma_projection_append(a7, p8, rc);
    lemma_projection_append(a7, p8, cc);
    let a9 = a8 + p9;
    lemma_projection_append(a8, p9, rc);
    lemma_projection_append(a8, p9, cc);
    let a10 = a9 + p10;
    lemma_projection_append(a9, p10, rc);
    lemma_projection_append(a9, p10, cc);
    assert(a10 =~= policy_set_spec(input, now));
    assert(projection(a10, rc) =~= renewal_set_spec(input));
    assert(projection(a10, cc) =~= claim_set_spec(input));
}

/// Optional `{field: "text"}`.
pub open spec fn opt_text_cond(field: Seq<char>, v: Option<String>) -> Seq<CondV> {
    match v {
        Some(s) => seq![CondV { field, test: TestV::Eq(ValueV::Str(s@)) }],
        None => seq![],
    }
}

/// Optional `{field: id}` (the text must be a valid id).
pub open spec fn opt_id_cond(field: Seq<char>, v: Option<String>) -> Seq<CondV> {
    match v {
        Some(s) => seq![CondV { field, test: TestV::Eq(ValueV::ObjectId(hex_oid_bytes(s@)->0)) }],
        None => seq![],
    }
}

/// The record's field holds the text, when a text is given.
pub open spec fn text_if_given(r: Seq<FieldV>, field: Seq<char>, v: Option<String>) -> bool {
    v matches Some(s) ==> lookup_value(r, field) == Some(ValueV::Str(s@))
}

/// The record's field holds the id the hex text names, when one is given.
pub open spec fn id_if_given(r: Seq<FieldV>, field: Seq<char>, v: Option<String>) -> bool {
    v matches Some(s) ==> lookup_value(r, field) == Some(ValueV::ObjectId(hex_oid_bytes(s@)->0))
}

/// An optional equality condition holds of a record exactly when, if a
/// value is given, the record's field holds it.
pub proof fn lemma_optional_conds(r: Seq<FieldV>, field: Seq<char>, v: Option<String>)
    ensures
        all_hold(opt_text_cond(field, v), r, |c: CondV, x: Seq<FieldV>| scalar_leaf(c, x)) <==> text_if_given(r, field, v),
        all_hold(opt_id_cond(field, v), r, |c: CondV, x: Seq<FieldV>| scalar_leaf(c, x)) <==> id_if_given(r, field, v),
{
    let leaf = |c: CondV, x: Seq<FieldV>| scalar_leaf(c, x);
    match v {
        Some(s) => {
            lemma_all_hold_small(CondV { field, test: TestV::Eq(ValueV::Str(s@)) }, r, leaf);
            lemma_all_hold_small(CondV { field, test: TestV::Eq(ValueV::ObjectId(hex_oid_bytes(s@)->0)) }, r, leaf);
        },
        None => {
            lemma_all_hold_small(CondV { field, test: TestV::Eq(ValueV::Null) }, r, leaf);
        },
    }
}

/// Which policies the list selects, before the category bucket and the
/// caller's scope: those of the customer, insurer, policy type, owner and
/// status given (each only when given).
pub proof fn lemma_policy_list_selects(q: ListPoliciesQuery, r: Seq<FieldV>)
    ensures
        filter_holds(FilterV::Doc(policy_list_doc(q)), r, |c: CondV, x: Seq<FieldV>| scalar_leaf(c, x)) <==> {
            &&& id_if_given(r, "customer_id"@, q.customer_id)
            &&& text_if_given(r, "insurer_name"@, q.insurer_name)
            &&& text_if_given(r, "policy_type"@, q.policy_type)
            &&& id_if_given(r, "assigned_to"@, q.assigned_to)
            &&& (q.status matches Some(st) ==> lookup_value(r, "status"@) == Some(ValueV::Str(policy_status_key_spec(st))))
        },
{
    let leaf = |c: CondV, x: Seq<FieldV>| scalar_leaf(c, x);
    let p1 = opt_id_cond("customer_id"@, q.customer_id);
    let p2 = opt_text_cond("insurer_name"@, q.insurer_name);
    let p3 = opt_text_cond("policy_type"@, q.policy_type);
    let p4 = opt_id_cond("assigned_to"@, q.assigned_to);
    let p5 = match q.status {
        Some(st) => seq![CondV { field: "status"@, test: TestV::Eq(ValueV::Str(policy_status_key_spec(st))) }],
        None => seq![],
    };
    lemma_optional_conds(r, "customer_id"@, q.customer_id);
    lemma_optional_conds(r, "insurer_name"@, q.insurer_name);
    lemma_optional_conds(r, "policy_type"@, q.policy_type);
    lemma_optional_conds(r, "assigned_to"@, q.assigned_to);
    match q.status {
        Some(st) => lemma_all_hold_small(p5[0], r, leaf),
        None => lemma_all_hold_small(CondV { field: "status"@, test: TestV::Eq(ValueV::Null) }, r, leaf),
    }
    lemma_all_hold_concat(p1, p2, r, leaf);
    lemma_all_hold_concat(p1 + p2, p3, r, leaf);
    lemma_all_hold_concat(p1 + p2 + p3, p4, r, leaf);
    lemma_all_hold_concat(p1 + p2 + p3 + p4, p5, r, leaf);
}

/// The policy list's own filter document (before category and scope).
pub open spec fn policy_list_doc(q: ListPoliciesQuery) -> Seq<CondV> {
    opt_id_cond("customer_id"@, q.customer_id) + opt_text_cond("insurer_name"@, q.insurer_name) + opt_text_cond(
        "policy_type"@,
        q.policy_type,
    ) + opt_id_cond("assigned_to"@, q.assigned_to) + match q.status {
        Some(st) => seq![CondV { field: "status"@, test: TestV::Eq(ValueV::Str(policy_status_key_spec(st))) }],
        None => seq![],
    }
}

/// The policy list filter with the category bucket applied (an unknown
/// category filters nothing).
pub open spec fn policy_list_with_category(q: ListPoliciesQuery) -> FilterV {
    let base = FilterV::Doc(policy_list_doc(q));
    match q.category {
        Some(c) => match category_filter_spec(lowercase(c@)) {
            Some(cf) => combine_spec(base, cf),
            None => base,
        },
        None => base,
    }
}

/// Appends a condition when given.
fn with_cond_opt(f: Filter, c: Option<Cond>, Ghost(cv): Ghost<Seq<CondV>>) -> (r: Filter)
    requires
        f@ is Doc,
        match c {
            Some(x) => cv == seq![x@],
            None => cv == Seq::<CondV>::empty(),
        },
    ensures
        r@ == FilterV::Doc(f@->Doc_0 + cv),
{
    match c {
        Some(x) => {
            let r = f.with_cond(x);
            assert(r@->Doc_0 =~= f@->Doc_0 + cv);
            r
        },
        None => {
            assert(f@->Doc_0 =~= f@->Doc_0 + cv);
            f
        },
    }
}

/// The filter of the policy list: the given customer, insurer, type, owner
/// and status, the category's keyword bucket, within the caller's scope.
/// An id that is not 24 hex digits is a 400 "invalid id".
pub fn policy_list_filter(q: &ListPoliciesQuery, scope: Filter) -> (r: Result<Filter, ApiError>)
    ensures
        r is Ok <==> opt_id_ok(q.customer_id) && opt_id_ok(q.assigned_to),
        r matches Err(e) ==> (e matches ApiError::BadRequest(m) && m@ == "invalid id"@),
        r matches Ok(f) ==> f@ == combine_spec(policy_list_with_category(*q), scope@),
{
    let customer = match parse_opt_oid(&q.customer_id) {
        Ok(o) => o,
        Err(e) => return Err(e),
    };
    let owner = match parse_opt_oid(&q.assigned_to) {
        Ok(o) => o,
        Err(e) => return Err(e),
    };
    let f = Filter::all();
    let c1 = match customer {
        Some(o) => Some(Cond { field: "customer_id".to_string(), test: Test::Eq(Value::ObjectId(o)) }),
        None => None,
    };
    let f = with_cond_opt(f, c1, Ghost(opt_id_cond("customer_id"@, q.customer_id)));
    let c2 = match &q.insurer_name {
        Some(s) => Some(Cond { field: "insurer_name".to_string(), test: Test::Eq(Value::Str(s.clone())) }),
        None => None,
    };
    let f = with_cond_opt(f, c2, Ghost(opt_text_cond("insurer_name"@, q.insurer_name)));
    let c3 = match &q.policy_type {
        Some(s) => Some(Cond { field: "policy_type".to_string(), test: Test::Eq(Value::Str(s.clone())) }),
        None => None,
    };
    let f = with_cond_opt(f, c3, Ghost(opt_text_cond("policy_type"@, q.policy_type)));
    let c4 = match owner {
        Some(o) => Some(Cond { field: "assigned_to".to_string(), test: Test::Eq(Value::ObjectId(o)) }),
        None => None,
    };
    let f = with_cond_opt(f, c4, Ghost(opt_id_cond("assigned_to"@, q.assigned_to)));
    let c5 = match q.status {
        Some(st) => Some(Cond { field: "status".to_string(), test: Test::Eq(Value::Str(policy_status_key(st).to_string())) }),
        None => None,
    };
    let ghost c5v = match q.status {
        Some(st) => seq![CondV { field: "status"@, test: TestV::Eq(ValueV::Str(policy_status_key_spec(st))) }],
        None => Seq::<CondV>::empty(),
    };
    let f = with_cond_opt(f, c5, Ghost(c5v));
    assert(f@->Doc_0 =~= policy_list_doc(*q));
    let f = match &q.category {
        Some(c) => match category_filter(c.as_str()) {
            Some(cf) => combine_filters(f, cf),
            None => f,
        },
        None => f,
    };
    Ok(combine_filters(f, scope))
}

impl FollowUpResponse {
    /// The API form of a follow-up: the author's id as hex.
    pub fn from_follow_up(f: FollowUp) -> (r: FollowUpResponse)
        ensures
            r.user_id@ == hex_text(f.user_id.bytes@),
            r.kind == f.kind,
            r.content == f.content,
            r.created_at == f.created_at,
    {
        FollowUpResponse { user_id: f.user_id.to_hex(), kind: f.kind, content: f.content, created_at: f.created_at }
    }
}

impl PolicyResponse {
    /// The API form of a policy: ids as hex (the id empty when absent),
    /// follow-ups converted in order.
    pub fn from_policy(p: Policy) -> (r: PolicyResponse)
        ensures
            r.id@ == opt_hex(p.id),
            r.customer_id@ == hex_text(p.customer_id.bytes@),
            r.insurer_name == p.insurer_name,
            r.policy_type == p.policy_type,
            r.policy_number == p.policy_number,
            r.sum_insured == p.sum_insured,
            r.start_date == p.start_date,
            r.end_date == p.end_date,
            r.previous_year_premium == p.previous_year_premium,
            r.current_year_premium == p.current_year_premium,
            r.status == p.status,
            match r.previous_policy_id {
                Some(s) => opt_hex_text(p.previous_policy_id) == Some(s@),
                None => p.previous_policy_id is None,
            },
            r.assigned_to@ == hex_text(p.assigned_to.bytes@),
            match r.source_document_id {
                Some(s) => opt_hex_text(p.source_document_id) == Some(s@),
                None => p.source_document_id is None,
            },
            r.follow_ups@.len() == p.follow_ups@.len(),
            forall|i: int| 0 <= i < r.follow_ups@.len() ==> (#[trigger] r.follow_ups@[i]).user_id@ == hex_text(
                p.follow_ups@[i].user_id.bytes@,
            ) && r.follow_ups@[i].kind == p.follow_ups@[i].kind && r.follow_ups@[i].content == p.follow_ups@[i].content
                && r.follow_ups@[i].created_at == p.follow_ups@[i].created_at,
            r.created_at == p.created_at,
            r.updated_at == p.updated_at,
    {
        let ghost fs = p.follow_ups@;
        let mut follow_ups: Vec<FollowUpResponse> = Vec::new();
        let mut src = p.follow_ups;
        let mut rest: Vec<FollowUp> = Vec::new();
        while src.len() > 0
            invariant
                fs.len() == follow_ups@.len() + src@.len(),
                src@ == fs.subrange(follow_ups@.len() as int, fs.len() as int),
                forall|i: int| 0 <= i < follow_ups@.len() ==> (#[trigger] follow_ups@[i]).user_id@ == hex_text(
                    fs[i].user_id.bytes@,
                ) && follow_ups@[i].kind == fs[i].kind && follow_ups@[i].content == fs[i].content
                    && follow_ups@[i].created_at == fs[i].created_at,
            decreases src@.len(),
        {
            let f = src.remove(0);
            follow_ups.push(FollowUpResponse::from_follow_up(f));
        }
        PolicyResponse {
            id: opt_id_hex(&p.id),
            customer_id: p.customer_id.to_hex(),
            insurer_name: p.insurer_name,
            policy_type: p.policy_type,
            policy_number: p.policy_number,
            sum_insured: p.sum_insured,
            start_date: p.start_date,
            end_date: p.end_date,
            previous_year_premium: p.previous_year_premium,
            current_year_premium: p.current_year_premium,
            status: p.status,
            previous_policy_id: opt_to_hex(&p.previous_policy_id),
            assigned_to: p.assigned_to.to_hex(),
            source_document_id: opt_to_hex(&p.source_document_id),
            follow_ups,
            created_at: p.created_at,
            updated_at: p.updated_at,
        }
    }
}

/// Names of the agency itself, which extraction once took for the insurer.
pub open spec fn agency_names() -> Seq<Seq<char>> {
    seq![
        "The Aditya Capital"@,
        "Aditya Capital"@,
        "The Aditya Capital Wealth & Policy CRM"@,
        "The Aditya Capital Wealth Management Firm"@,
        "Aditya Capital Wealth Management Firm"@,
        "aditya capital"@,
    ]
}

/// The policies whose insurer is recorded as the agency itself (reported
/// at startup for a person to correct; nothing is rewritten).
pub fn agency_insurer_filter() -> (f: Filter)
    ensures
        f@ == FilterV::Doc(seq![CondV {
            field: "insurer_name"@,
            test: TestV::In(agency_names().map_values(|n: Seq<char>| ValueV::Str(n))),
        }]),
{
    let names = vec![
        "The Aditya Capital",
        "Aditya Capital",
        "The Aditya Capital Wealth & Policy CRM",
        "The Aditya Capital Wealth Management Firm",
        "Aditya Capital Wealth Management Firm",
        "aditya capital",
    ];
    let mut vals: Vec<Value> = Vec::new();
    let mut i: usize = 0;
    while i < names.len()
        invariant
            i <= names@.len(),
            names@.map_values(|s: &str| s@) == agency_names(),
            vals@.len() == i,
            forall|k: int| 0 <= k < i ==> (#[trigger] vals@[k])@ == ValueV::Str(agency_names()[k]),
        decreases names.len() - i,
    {
        vals.push(Value::Str(names[i].to_string()));
        i = i + 1;
    }
    proof {
        crate::value::lemma_values_view(vals@);
        assert(crate::value::values_view(vals@) =~= agency_names().map_values(|n: Seq<char>| ValueV::Str(n)));
    }
    Filter::single(Cond { field: "insurer_name".to_string(), test: Test::In(vals) })
}

/// Logging a follow-up on a policy moves its renewal from pending to
/// contacted: the filter selects that pending renewal, the fields are what
/// it is set to.
pub fn follow_up_renewal_update(policy_id: Oid, now: i64) -> (r: (Filter, Vec<Field>))
    ensures
        r.0@ == FilterV::Doc(seq![
            CondV { field: "policy_id"@, test: TestV::Eq(ValueV::ObjectId(policy_id.bytes@)) },
            CondV { field: "status"@, test: TestV::Eq(ValueV::Str("pending"@)) },
        ]),
        fields_view(r.1@) == seq![
            set_field("status"@, ValueV::Str("contacted"@)),
            set_field("last_contacted_at"@, ValueV::DateTime(now)),
        ],
{
    let cs = vec![
        Cond { field: "policy_id".to_string(), test: Test::Eq(Value::ObjectId(policy_id)) },
        Cond { field: "status".to_string(), test: Test::Eq(Value::Str("pending".to_string())) },
    ];
    let f = Filter::Doc(cs);
    assert(f@->Doc_0 =~= seq![
        CondV { field: "policy_id"@, test: TestV::Eq(ValueV::ObjectId(policy_id.bytes@)) },
        CondV { field: "status"@, test: TestV::Eq(ValueV::Str("pending"@)) },
    ]);
    let mut fs: Vec<Field> = Vec::new();
    push_field(&mut fs, "status", Value::Str("contacted".to_string()));
    push_field(&mut fs, "last_contacted_at", Value::DateTime(now));
    assert(fields_view(fs@) =~= seq![
        set_field("status"@, ValueV::Str("contacted"@)),
        set_field("last_contacted_at"@, ValueV::DateTime(now)),
    ]);
    (f, fs)
}

} // verus!
