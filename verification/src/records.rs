//! Claims, payments and leads: creating them (with what they copy from
//! their policy), moving them between statuses, and listing them.
use vstd::prelude::*;
use crate::categorize::{category_filter, category_filter_spec};
use crate::error::{bad_request, ApiError};
use crate::filter::{combine_filters, combine_spec, Cond, CondV, Filter, FilterV, Test, TestV};
use crate::oid::{hex_oid_bytes, hex_text, parse_oid, parse_opt_oid, Oid};
use crate::policies::{
    fields_view, opt_float_field, opt_id_cond, opt_id_field, opt_id_ok, opt_text_cond, opt_text_field, push_field,
    push_opt_float, push_opt_id, push_opt_text, set_field, Policy,
};
use crate::reminders::{opt_hex, opt_id_hex};
use crate::text::{chars_to_string, lowercase, push_str, str_chars};
use crate::value::{Field, FieldV, Float, Value, ValueV};

verus! {

broadcast use vstd::string::group_string_axioms;

/// Where a claim stands.
#[derive(Clone, Copy, Debug, PartialEq, Eq, Structural)]
pub enum ClaimStatus {
    Pending,
    UnderReview,
    Approved,
    Rejected,
    Settled,
}

/// Stored name of a claim status.
pub open spec fn claim_status_key_spec(s: ClaimStatus) -> Seq<char> {
    match s {
        ClaimStatus::Pending => "pending"@,
        ClaimStatus::UnderReview => "under_review"@,
        ClaimStatus::Approved => "approved"@,
        ClaimStatus::Rejected => "rejected"@,
        ClaimStatus::Settled => "settled"@,
    }
}

/// Stored name of a claim status.
pub fn claim_status_key(s: ClaimStatus) -> (r: &'static str)
    ensures
        r@ == claim_status_key_spec(s),
{
    match s {
        ClaimStatus::Pending => "pending",
        ClaimStatus::UnderReview => "under_review",
        ClaimStatus::Approved => "approved",
        ClaimStatus::Rejected => "rejected",
        ClaimStatus::Settled => "settled",
    }
}

/// An insurance claim, with the customer and policy details copied from
/// its policy. Dates are epoch milliseconds.
pub struct Claim {
    pub id: Option<Oid>,
    pub policy_id: Oid,
    pub customer_id: Oid,
    pub customer_name: String,
    pub policy_number: String,
    pub insurer_name: String,
    pub policy_type: String,
    pub claim_number: String,
    pub claim_amount: Float,
    pub status: ClaimStatus,
    pub filed_date: i64,
    pub settled_at: Option<i64>,
    pub assigned_to: Oid,
    pub created_at: i64,
}

/// A request to file a claim against a policy (id as hex text).
pub struct CreateClaimInput {
    pub policy_id: String,
    pub claim_number: String,
    pub claim_amount: Float,
    pub filed_date: i64,
}

/// A request to move a claim to another status.
pub struct UpdateClaimStatusInput {
    pub status: ClaimStatus,
}

/// Filters of the claim list.
pub struct ListClaimsQuery {
    pub status: Option<ClaimStatus>,
    pub customer_id: Option<String>,
    pub policy_type: Option<String>,
    pub category: Option<String>,
}

/// A claim as the API returns it.
pub struct ClaimResponse {
    pub id: String,
    pub policy_id: String,
    pub customer_id: String,
    pub customer_name: String,
    pub policy_number: String,
    pub insurer_name: String,
    pub policy_type: String,
    pub claim_number: String,
    pub claim_amount: Float,
    pub status: ClaimStatus,
    pub filed_date: i64,
    pub settled_at: Option<i64>,
    pub assigned_to: String,
    pub created_at: i64,
}

/// State of a premium payment.
#[derive(Clone, Copy, Debug, PartialEq, Eq, Structural)]
pub enum PaymentStatus {
    Collected,
    Pending,
    Overdue,
    Expected,
}

/// Stored name of a payment status.
pub open spec fn payment_status_key_spec(s: PaymentStatus) -> Seq<char> {
    match s {
        PaymentStatus::Collected => "collected"@,
        PaymentStatus::Pending => "pending"@,
        PaymentStatus::Overdue => "overdue"@,
        PaymentStatus::Expected => "expected"@,
    }
}

/// Stored name of a payment status.
pub fn payment_status_key(s: PaymentStatus) -> (r: &'static str)
    ensures
        r@ == payment_status_key_spec(s),
{
    match s {
        PaymentStatus::Collected => "collected",
        PaymentStatus::Pending => "pending",
        PaymentStatus::Overdue => "overdue",
        PaymentStatus::Expected => "expected",
    }
}

/// A premium payment, with the customer and policy type copied from its
/// policy.
pub struct Payment {
    pub id: Option<Oid>,
    pub policy_id: Oid,
    pub customer_id: Oid,
    pub customer_name: String,
    pub policy_type: String,
    pub receipt_number: String,
    pub amount: Float,
    pub status: PaymentStatus,
    pub due_date: i64,
    pub paid_at: Option<i64>,
    pub payment_method: Option<String>,
    pub assigned_to: Oid,
    pub created_at: i64,
}

/// A request to log a payment against a policy (id as hex text).
pub struct CreatePaymentInput {
    pub policy_id: String,
    pub receipt_number: String,
    pub amount: Float,
    pub status: Option<PaymentStatus>,
    pub due_date: i64,
    pub payment_method: Option<String>,
}

/// A request to move a payment to another status.
pub struct UpdatePaymentStatusInput {
    pub status: PaymentStatus,
}

/// Filters of the payment list.
pub struct ListPaymentsQuery {
    pub status: Option<PaymentStatus>,
    pub customer_id: Option<String>,
    pub policy_type: Option<String>,
    pub category: Option<String>,
}

/// A payment as the API returns it.
pub struct PaymentResponse {
    pub id: String,
    pub policy_id: String,
    pub customer_id: String,
    pub customer_name: String,
    pub policy_type: String,
    pub receipt_number: String,
    pub amount: Float,
    pub status: PaymentStatus,
    pub due_date: i64,
    pub paid_at: Option<i64>,
    pub payment_method: Option<String>,
    pub assigned_to: String,
    pub created_at: i64,
}

/// Stage of a sales lead; leads move freely between stages.
#[derive(Clone, Copy, Debug, PartialEq, Eq, Structural)]
pub enum LeadStage {
    New,
    Contacted,
    Qualified,
    Proposal,
    Negotiation,
    Won,
    Lost,
}

/// Stored name of a lead stage.
pub open spec fn lead_stage_key_spec(s: LeadStage) -> Seq<char> {
    match s {
        LeadStage::New => "new"@,
        LeadStage::Contacted => "contacted"@,
        LeadStage::Qualified => "qualified"@,
        LeadStage::Proposal => "proposal"@,
        LeadStage::Negotiation => "negotiation"@,
        LeadStage::Won => "won"@,
        LeadStage::Lost => "lost"@,
    }
}

/// Stored name of a lead stage.
pub fn lead_stage_key(s: LeadStage) -> (r: &'static str)
    ensures
        r@ == lead_stage_key_spec(s),
{
    match s {
        LeadStage::New => "new",
        LeadStage::Contacted => "contacted",
        LeadStage::Qualified => "qualified",
        LeadStage::Proposal => "proposal",
        LeadStage::Negotiation => "negotiation",
        LeadStage::Won => "won",
        LeadStage::Lost => "lost",
    }
}

/// A prospective customer in the sales pipeline.
pub struct Lead {
    pub id: Option<Oid>,
    pub name: String,
    pub phone: Option<String>,
    pub email: Option<String>,
    pub policy_type: String,
    pub estimated_premium: Option<Float>,
    pub stage: LeadStage,
    /// Staff's estimate of the chance to close, 0 to 100.
    pub probability: i32,
    pub assigned_to: Oid,
    pub created_at: i64,
    pub updated_at: i64,
}

/// A request to add a lead.
pub struct CreateLeadInput {
    pub name: String,
    pub phone: Option<String>,
    pub email: Option<String>,
    pub policy_type: String,
    pub estimated_premium: Option<Float>,
    pub probability: i32,
    pub assigned_to: Option<String>,
}

/// A partial edit of a lead.
pub struct UpdateLeadInput {
    pub name: Option<String>,
    pub phone: Option<String>,
    pub email: Option<String>,
    pub policy_type: Option<String>,
    pub estimated_premium: Option<Float>,
    pub probability: Option<i32>,
    pub assigned_to: Option<String>,
}

/// A request to move a lead to another stage.
pub struct UpdateLeadStageInput {
    pub stage: LeadStage,
}

/// Filters of the lead list.
pub struct ListLeadsQuery {
    pub stage: Option<LeadStage>,
    pub assigned_to: Option<String>,
}

/// A lead as the API returns it.
pub struct LeadResponse {
    pub id: String,
    pub name: String,
    pub phone: Option<String>,
    pub email: Option<String>,
    pub policy_type: String,
    pub estimated_premium: Option<Float>,
    pub stage: LeadStage,
    pub probability: i32,
    pub assigned_to: String,
    pub created_at: i64,
    pub updated_at: i64,
}

/// A policy a new claim or payment names must be visible to the caller: a
/// 400 "policy not found" otherwise.
pub fn require_policy(p: Option<Policy>) -> (r: Result<Policy, ApiError>)
    ensures
        match p {
            Some(x) => r == Ok::<Policy, ApiError>(x),
            None => r matches Err(e) && e matches ApiError::BadRequest(m) && m@ == "policy not found"@,
        },
{
    match p {
        Some(x) => Ok(x),
        None => Err(bad_request("policy not found")),
    }
}

/// The policy's customer must exist: a 500 otherwise.
pub fn require_policy_customer<T>(c: Option<T>) -> (r: Result<T, ApiError>)
    ensures
        match c {
            Some(x) => r == Ok::<T, ApiError>(x),
            None => r matches Err(e) && e matches ApiError::Internal(m) && m@ == "policy references a missing customer"@,
        },
{
    match c {
        Some(x) => Ok(x),
        None => Err(ApiError::Internal("policy references a missing customer".to_string())),
    }
}

/// `{"status": key}` when a status is given.
pub open spec fn opt_status_cond(key: Option<Seq<char>>) -> Seq<CondV> {
    match key {
        Some(k) => seq![CondV { field: "status"@, test: TestV::Eq(ValueV::Str(k)) }],
        None => seq![],
    }
}

/// The claim and payment lists' filter: the status, customer and policy
/// type when given, the category's keyword bucket, within the caller's
/// scope.
pub open spec fn status_list_spec(
    status: Option<Seq<char>>,
    customer: Option<String>,
    policy_type: Option<String>,
    category: Option<String>,
    scope: FilterV,
) -> FilterV {
    let base = FilterV::Doc(opt_status_cond(status) + opt_id_cond("customer_id"@, customer) + opt_text_cond(
        "policy_type"@,
        policy_type,
    ));
    let with_cat = match category {
        Some(c) => match category_filter_spec(lowercase(c@)) {
            Some(cf) => combine_spec(base, cf),
            None => base,
        },
        None => base,
    };
    combine_spec(with_cat, scope)
}

/// Builds the claim and payment lists' filter.
fn status_list_filter(
    status: Option<&'static str>,
    customer_id: &Option<String>,
    policy_type: &Option<String>,
    category: &Option<String>,
    scope: Filter,
) -> (r: Result<Filter, ApiError>)
    ensures
        r is Ok <==> opt_id_ok(*customer_id),
        r matches Err(e) ==> (e matches ApiError::BadRequest(m) && m@ == "invalid id"@),
        r matches Ok(f) ==> f@ == status_list_spec(
            match status {
                Some(s) => Some(s@),
                None => None,
            },
            *customer_id,
            *policy_type,
            *category,
            scope@,
        ),
{
    let customer = match parse_opt_oid(customer_id) {
        Ok(o) => o,
        Err(e) => return Err(e),
    };
    let mut cs: Vec<Cond> = Vec::new();
    if let Some(s) = status {
        cs.push(Cond { field: "status".to_string(), test: Test::Eq(Value::Str(s.to_string())) });
    }
    let ghost a = cs@;
    if let Some(c) = customer {
        cs.push(Cond { field: "customer_id".to_string(), test: Test::Eq(Value::ObjectId(c)) });
    }
    let ghost b = cs@;
    if let Some(t) = policy_type {
        cs.push(Cond { field: "policy_type".to_string(), test: Test::Eq(Value::Str(t.clone())) });
    }
    let f = Filter::Doc(cs);
    let ghost sk = match status {
        Some(s) => Some(s@),
        None => None::<Seq<char>>,
    };
    assert(f@->Doc_0 =~= opt_status_cond(sk) + opt_id_cond("customer_id"@, *customer_id) + opt_text_cond(
        "policy_type"@,
        *policy_type,
    ));
    let f = match category {
        Some(c) => match category_filter(c.as_str()) {
            Some(cf) => combine_filters(f, cf),
            None => f,
        },
        None => f,
    };
    Ok(combine_filters(f, scope))
}

/// The claim list's filter; a customer id that is not 24 hex digits is a
/// 400 "invalid id".
pub fn claim_list_filter(q: &ListClaimsQuery, scope: Filter) -> (r: Result<Filter, ApiError>)
    ensures
        r is Ok <==> opt_id_ok(q.customer_id),
        r matches Err(e) ==> (e matches ApiError::BadRequest(m) && m@ == "invalid id"@),
        r matches Ok(f) ==> f@ == status_list_spec(
            match q.status {
                Some(s) => Some(claim_status_key_spec(s)),
                None => None,
            },
            q.customer_id,
            q.policy_type,
            q.category,
            scope@,
        ),
{
    let status = match q.status {
        Some(s) => Some(claim_status_key(s)),
        None => None,
    };
    status_list_filter(status, &q.customer_id, &q.policy_type, &q.category, scope)
}

/// The payment list's filter; a customer id that is not 24 hex digits is a
/// 400 "invalid id".
pub fn payment_list_filter(q: &ListPaymentsQuery, scope: Filter) -> (r: Result<Filter, ApiError>)
    ensures
        r is Ok <==> opt_id_ok(q.customer_id),
        r matches Err(e) ==> (e matches ApiError::BadRequest(m) && m@ == "invalid id"@),
        r matches Ok(f) ==> f@ == status_list_spec(
            match q.status {
                Some(s) => Some(payment_status_key_spec(s)),
                None => None,
            },
            q.customer_id,
            q.policy_type,
            q.category,
            scope@,
        ),
{
    let status = match q.status {
        Some(s) => Some(payment_status_key(s)),
        None => None,
    };
    status_list_filter(status, &q.customer_id, &q.policy_type, &q.category, scope)
}

/// The claim a request files against `policy`: Pending, not settled, owned
/// by the policy's owner, with the policy's customer, number, insurer and
/// type copied.
pub fn new_claim(input: CreateClaimInput, policy_id: Oid, policy: &Policy, customer_name: String, now: i64) -> (c: Claim)
    ensures
        c.id is None,
        c.policy_id == policy_id,
        c.customer_id == policy.customer_id,
        c.customer_name == customer_name,
        c.policy_number@ == policy.policy_number@,
        c.insurer_name@ == policy.insurer_name@,
        c.policy_type@ == policy.policy_type@,
        c.claim_number == input.claim_number,
        c.claim_amount == input.claim_amount,
        c.status == ClaimStatus::Pending,
        c.filed_date == input.filed_date,
        c.settled_at is None,
        c.assigned_to == policy.assigned_to,
        c.created_at == now,
{
    Claim {
        id: None,
        policy_id,
        customer_id: policy.customer_id,
        customer_name,
        policy_number: policy.policy_number.clone(),
        insurer_name: policy.insurer_name.clone(),
        policy_type: policy.policy_type.clone(),
        claim_number: input.claim_number,
        claim_amount: input.claim_amount,
        status: ClaimStatus::Pending,
        filed_date: input.filed_date,
        settled_at: None,
        assigned_to: policy.assigned_to,
        created_at: now,
    }
}

/// What a claim status move sets: the status, and the settlement time
/// exactly when the claim is settled.
pub fn claim_status_set(status: ClaimStatus, now: i64) -> (r: Vec<Field>)
    ensures
        fields_view(r@) == seq![set_field("status"@, ValueV::Str(claim_status_key_spec(status)))] + if status
            == ClaimStatus::Settled {
            seq![set_field("settled_at"@, ValueV::DateTime(now))]
        } else {
            Seq::<FieldV>::empty()
        },
{
    let mut r: Vec<Field> = Vec::new();
    r.push(Field { key: "status".to_string(), value: Value::Str(claim_status_key(status).to_string()), rank: None });
    if status == ClaimStatus::Settled {
        r.push(Field { key: "settled_at".to_string(), value: Value::DateTime(now), rank: None });
    }
    let ghost want = seq![set_field("status"@, ValueV::Str(claim_status_key_spec(status)))] + if status
        == ClaimStatus::Settled {
        seq![set_field("settled_at"@, ValueV::DateTime(now))]
    } else {
        Seq::<FieldV>::empty()
    };
    assert(fields_view(r@) =~= want);
    r
}

/// Activity-feed line for a new claim: `filed claim <number> for <customer>`.
pub fn claim_filed_activity(claim_number: &str, customer_name: &str) -> (r: String)
    ensures
        r@ == "filed claim "@ + claim_number@ + " for "@ + customer_name@,
{
    let mut out = str_chars("filed claim ");
    push_str(&mut out, claim_number);
    push_str(&mut out, " for ");
    push_str(&mut out, customer_name);
    chars_to_string(&out)
}

/// The payment a request logs against `policy`: Pending unless a status is
/// given, paid `now` exactly when it is Collected, owned by the policy's
/// owner, with the policy's customer and type copied.
pub fn new_payment(input: CreatePaymentInput, policy_id: Oid, policy: &Policy, customer_name: String, now: i64) -> (p: Payment)
    ensures
        p.id is None,
        p.policy_id == policy_id,
        p.customer_id == policy.customer_id,
        p.customer_name == customer_name,
        p.policy_type@ == policy.policy_type@,
        p.receipt_number == input.receipt_number,
        p.amount == input.amount,
        p.status == match input.status {
            Some(s) => s,
            None => PaymentStatus::Pending,
        },
        p.due_date == input.due_date,
        p.paid_at == if p.status == PaymentStatus::Collected { Some(now) } else { None },
        p.payment_method == input.payment_method,
        p.assigned_to == policy.assigned_to,
        p.created_at == now,
{
    let status = match input.status {
        Some(s) => s,
        None => PaymentStatus::Pending,
    };
    Payment {
        id: None,
        policy_id,
        customer_id: policy.customer_id,
        customer_name,
        policy_type: policy.policy_type.clone(),
        receipt_number: input.receipt_number,
        amount: input.amount,
        status,
        due_date: input.due_date,
        paid_at: if status == PaymentStatus::Collected { Some(now) } else { None },
        payment_method: input.payment_method,
        assigned_to: policy.assigned_to,
        created_at: now,
    }
}

/// What a payment status move sets: the status, and the payment time
/// exactly when it is collected.
pub fn payment_status_set(status: PaymentStatus, now: i64) -> (r: Vec<Field>)
    ensures
        fields_view(r@) == seq![set_field("status"@, ValueV::Str(payment_status_key_spec(status)))] + if status
            == PaymentStatus::Collected {
            seq![set_field("paid_at"@, ValueV::DateTime(now))]
        } else {
            Seq::<FieldV>::empty()
        },
{
    let mut r: Vec<Field> = Vec::new();
    r.push(Field { key: "status".to_string(), value: Value::Str(payment_status_key(status).to_string()), rank: None });
    if status == PaymentStatus::Collected {
        r.push(Field { key: "paid_at".to_string(), value: Value::DateTime(now), rank: None });
    }
    let ghost want = seq![set_field("status"@, ValueV::Str(payment_status_key_spec(status)))] + if status
        == PaymentStatus::Collected {
        seq![set_field("paid_at"@, ValueV::DateTime(now))]
    } else {
        Seq::<FieldV>::empty()
    };
    assert(fields_view(r@) =~= want);
    r
}

/// Activity-feed line for a payment: `logged payment receipt <number> for
/// <customer>`.
pub fn payment_logged_activity(receipt_number: &str, customer_name: &str) -> (r: String)
    ensures
        r@ == "logged payment receipt "@ + receipt_number@ + " for "@ + customer_name@,
{
    let mut out = str_chars("logged payment receipt ");
    push_str(&mut out, receipt_number);
    push_str(&mut out, " for ");
    push_str(&mut out, customer_name);
    chars_to_string(&out)
}

/// The lead list's filter: the stage and owner when given, within the
/// caller's scope.
pub fn lead_list_filter(q: &ListLeadsQuery, scope: Filter) -> (r: Result<Filter, ApiError>)
    ensures
        r is Ok <==> opt_id_ok(q.assigned_to),
        r matches Err(e) ==> (e matches ApiError::BadRequest(m) && m@ == "invalid id"@),
        r matches Ok(f) ==> f@ == combine_spec(
            FilterV::Doc(match q.stage {
                Some(s) => seq![CondV { field: "stage"@, test: TestV::Eq(ValueV::Str(lead_stage_key_spec(s))) }],
                None => Seq::<CondV>::empty(),
            } + opt_id_cond("assigned_to"@, q.assigned_to)),
            scope@,
        ),
{
    let owner = match parse_opt_oid(&q.assigned_to) {
        Ok(o) => o,
        Err(e) => return Err(e),
    };
    let mut cs: Vec<Cond> = Vec::new();
    if let Some(s) = q.stage {
        cs.push(Cond { field: "stage".to_string(), test: Test::Eq(Value::Str(lead_stage_key(s).to_string())) });
    }
    if let Some(o) = owner {
        cs.push(Cond { field: "assigned_to".to_string(), test: Test::Eq(Value::ObjectId(o)) });
    }
    let f = Filter::Doc(cs);
    assert(f@->Doc_0 =~= match q.stage {
        Some(s) => seq![CondV { field: "stage"@, test: TestV::Eq(ValueV::Str(lead_stage_key_spec(s))) }],
        None => Seq::<CondV>::empty(),
    } + opt_id_cond("assigned_to"@, q.assigned_to));
    Ok(combine_filters(f, scope))
}

/// The lead a request adds: at stage New, owned by the given owner or the
/// caller, created and updated `now`.
pub fn new_lead(input: CreateLeadInput, caller: Oid, now: i64) -> (r: Result<Lead, ApiError>)
    ensures
        r is Ok <==> opt_id_ok(input.assigned_to),
        r matches Err(e) ==> (e matches ApiError::BadRequest(m) && m@ == "invalid id"@),
        r matches Ok(l) ==> {
            &&& l.id is None
            &&& l.name == input.name
            &&& l.phone == input.phone
            &&& l.email == input.email
            &&& l.policy_type == input.policy_type
            &&& l.estimated_premium == input.estimated_premium
            &&& l.stage == LeadStage::New
            &&& l.probability == input.probability
            &&& l.assigned_to.bytes@ == match input.assigned_to {
                Some(s) => hex_oid_bytes(s@)->0,
                None => caller.bytes@,
            }
            &&& l.created_at == now
            &&& l.updated_at == now
        },
{
    let assigned_to = match &input.assigned_to {
        Some(id) => match parse_oid(id.as_str()) {
            Ok(o) => o,
            Err(e) => return Err(e),
        },
        None => caller,
    };
    Ok(Lead {
        id: None,
        name: input.name,
        phone: input.phone,
        email: input.email,
        policy_type: input.policy_type,
        estimated_premium: input.estimated_premium,
        stage: LeadStage::New,
        probability: input.probability,
        assigned_to,
        created_at: now,
        updated_at: now,
    })
}

/// What a lead edit sets: `updated_at`, then each given field.
pub open spec fn lead_set_spec(input: UpdateLeadInput, now: i64) -> Seq<FieldV> {
    seq![set_field("updated_at"@, ValueV::DateTime(now))] + opt_text_field("name"@, input.name) + opt_text_field(
        "phone"@,
        input.phone,
    ) + opt_text_field("email"@, input.email) + opt_text_field("policy_type"@, input.policy_type) + opt_float_field(
        "estimated_premium"@,
        input.estimated_premium,
    ) + match input.probability {
        Some(p) => seq![set_field("probability"@, ValueV::Int32(p))],
        None => Seq::<FieldV>::empty(),
    } + opt_id_field("assigned_to"@, input.assigned_to)
}

/// The `$set` of a lead edit; an owner id that is not 24 hex digits is a
/// 400 "invalid id".
pub fn lead_update_set(input: &UpdateLeadInput, now: i64) -> (r: Result<Vec<Field>, ApiError>)
    ensures
        r is Ok <==> opt_id_ok(input.assigned_to),
        r matches Err(e) ==> (e matches ApiError::BadRequest(m) && m@ == "invalid id"@),
        r matches Ok(fs) ==> fields_view(fs@) == lead_set_spec(*input, now),
{
    let owner = match parse_opt_oid(&input.assigned_to) {
        Ok(o) => o,
        Err(e) => return Err(e),
    };
    let mut fs: Vec<Field> = Vec::new();
    push_field(&mut fs, "updated_at", Value::DateTime(now));
    push_opt_text(&mut fs, "name", &input.name);
    push_opt_text(&mut fs, "phone", &input.phone);
    push_opt_text(&mut fs, "email", &input.email);
    push_opt_text(&mut fs, "policy_type", &input.policy_type);
    push_opt_float(&mut fs, "estimated_premium", &input.estimated_premium);
    let ghost before = fields_view(fs@);
    if let Some(p) = input.probability {
        push_field(&mut fs, "probability", Value::Int32(p));
    }
    assert(fields_view(fs@) =~= before + match input.probability {
        Some(p) => seq![set_field("probability"@, ValueV::Int32(p))],
        None => Seq::<FieldV>::empty(),
    });
    push_opt_id(&mut fs, "assigned_to", owner, &input.assigned_to);
    assert(fields_view(fs@) =~= lead_set_spec(*input, now));
    Ok(fs)
}

/// What a lead stage move sets: the stage and `updated_at`.
pub fn lead_stage_set(stage: LeadStage, now: i64) -> (r: Vec<Field>)
    ensures
        fields_view(r@) == seq![
            set_field("stage"@, ValueV::Str(lead_stage_key_spec(stage))),
            set_field("updated_at"@, ValueV::DateTime(now)),
        ],
{
    let mut r: Vec<Field> = Vec::new();
    push_field(&mut r, "stage", Value::Str(lead_stage_key(stage).to_string()));
    push_field(&mut r, "updated_at", Value::DateTime(now));
    assert(fields_view(r@) =~= seq![
        set_field("stage"@, ValueV::Str(lead_stage_key_spec(stage))),
        set_field("updated_at"@, ValueV::DateTime(now)),
    ]);
    r
}

/// Activity-feed line for a new lead: `added a new lead for <name>`.
pub fn lead_added_activity(name: &str) -> (r: String)
    ensures
        r@ == "added a new lead for "@ + name@,
{
    let mut out = str_chars("added a new lead for ");
    push_str(&mut out, name);
    chars_to_string(&out)
}

impl ClaimResponse {
    /// The API form of a claim: ids as hex (the id empty when absent).
    pub fn from_claim(c: Claim) -> (r: ClaimResponse)
        ensures
            r.id@ == opt_hex(c.id),
            r.policy_id@ == hex_text(c.policy_id.bytes@),
            r.customer_id@ == hex_text(c.customer_id.bytes@),
            r.customer_name == c.customer_name,
            r.policy_number == c.policy_number,
            r.insurer_name == c.insurer_name,
            r.policy_type == c.policy_type,
            r.claim_number == c.claim_number,
            r.claim_amount == c.claim_amount,
            r.status == c.status,
            r.filed_date == c.filed_date,
            r.settled_at == c.settled_at,
            r.assigned_to@ == hex_text(c.assigned_to.bytes@),
            r.created_at == c.created_at,
    {
        ClaimResponse {
            id: opt_id_hex(&c.id),
            policy_id: c.policy_id.to_hex(),
            customer_id: c.customer_id.to_hex(),
            customer_name: c.customer_name,
            policy_number: c.policy_number,
            insurer_name: c.insurer_name,
            policy_type: c.policy_type,
            claim_number: c.claim_number,
            claim_amount: c.claim_amount,
            status: c.status,
            filed_date: c.filed_date,
            settled_at: c.settled_at,
            assigned_to: c.assigned_to.to_hex(),
            created_at: c.created_at,
        }
    }
}

impl PaymentResponse {
    /// The API form of a payment: ids as hex (the id empty when absent).
    pub fn from_payment(p: Payment) -> (r: PaymentResponse)
        ensures
            r.id@ == opt_hex(p.id),
            r.policy_id@ == hex_text(p.policy_id.bytes@),
            r.customer_id@ == hex_text(p.customer_id.bytes@),
            r.customer_name == p.customer_name,
            r.policy_type == p.policy_type,
            r.receipt_number == p.receipt_number,
            r.amount == p.amount,
            r.status == p.status,
            r.due_date == p.due_date,
            r.paid_at == p.paid_at,
            r.payment_method == p.payment_method,
            r.assigned_to@ == hex_text(p.assigned_to.bytes@),
            r.created_at == p.created_at,
    {
        PaymentResponse {
            id: opt_id_hex(&p.id),
            policy_id: p.policy_id.to_hex(),
            customer_id: p.customer_id.to_hex(),
            customer_name: p.customer_name,
            policy_type: p.policy_type,
            receipt_number: p.receipt_number,
            amount: p.amount,
            status: p.status,
            due_date: p.due_date,
            paid_at: p.paid_at,
            payment_method: p.payment_method,
            assigned_to: p.assigned_to.to_hex(),
            created_at: p.created_at,
        }
    }
}

impl LeadResponse {
    /// The API form of a lead: ids as hex (the id empty when absent).
    pub fn from_lead(l: Lead) -> (r: LeadResponse)
        ensures
            r.id@ == opt_hex(l.id),
            r.name == l.name,
            r.phone == l.phone,
            r.email == l.email,
            r.policy_type == l.policy_type,
            r.estimated_premium == l.estimated_premium,
            r.stage == l.stage,
            r.probability == l.probability,
            r.assigned_to@ == hex_text(l.assigned_to.bytes@),
            r.created_at == l.created_at,
            r.updated_at == l.updated_at,
    {
        LeadResponse {
            id: opt_id_hex(&l.id),
            name: l.name,
            phone: l.phone,
            email: l.email,
            policy_type: l.policy_type,
            estimated_premium: l.estimated_premium,
            stage: l.stage,
            probability: l.probability,
            assigned_to: l.assigned_to.to_hex(),
            created_at: l.created_at,
            updated_at: l.updated_at,
        }
    }
}

} // verus!
