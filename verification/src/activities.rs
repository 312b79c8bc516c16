//! The activity feed: an audit trail written alongside the writes worth
//! surfacing, plus manual entries; scoped like the records it describes.
use vstd::prelude::*;
use crate::error::ApiError;
use crate::filter::{combine_filters, combine_spec, Cond, CondV, Filter, FilterV, Test, TestV};
use crate::oid::{hex_text, oid_opt_view, parse_opt_oid, Oid};
use crate::policies::{opt_hex_text, opt_id_bytes, opt_id_cond, opt_id_ok, opt_to_hex};
use crate::reminders::{opt_hex, opt_id_hex};
use crate::value::Value;

verus! {

broadcast use vstd::string::group_string_axioms;

/// The icon an activity shows with.
#[derive(Clone, Copy, Debug, PartialEq, Eq, Structural)]
pub enum ActivityIcon {
    Policy,
    Payment,
    Lead,
    Claim,
    Reminder,
    Note,
}

/// An entry of the feed. `assigned_to` is the owner of the record it
/// describes (none: visible to admins only).
pub struct Activity {
    pub id: Option<Oid>,
    pub user_id: Oid,
    pub action: String,
    pub customer_id: Option<Oid>,
    pub customer_name: Option<String>,
    pub policy_type: Option<String>,
    pub icon_type: ActivityIcon,
    pub assigned_to: Option<Oid>,
    pub created_at: i64,
}

/// What a handler logs.
pub struct NewActivity {
    pub user_id: Oid,
    pub action: String,
    pub customer_id: Option<Oid>,
    pub customer_name: Option<String>,
    pub policy_type: Option<String>,
    pub icon_type: ActivityIcon,
    pub assigned_to: Option<Oid>,
}

/// A manual entry ("logged a call"); the customer id as hex text.
pub struct CreateActivityInput {
    pub action: String,
    pub customer_id: Option<String>,
    pub customer_name: Option<String>,
    pub policy_type: Option<String>,
    pub icon_type: ActivityIcon,
}

/// Filter of the feed: one customer's timeline.
pub struct ListActivitiesQuery {
    pub customer_id: Option<String>,
}

/// An activity as the API returns it.
pub struct ActivityResponse {
    pub id: String,
    pub user_id: String,
    pub action: String,
    pub customer_id: Option<String>,
    pub customer_name: Option<String>,
    pub policy_type: Option<String>,
    pub icon_type: ActivityIcon,
    pub created_at: i64,
}

/// The stored entry of a logged activity, at `now`.
pub fn new_activity(a: NewActivity, now: i64) -> (r: Activity)
    ensures
        r.id is None,
        r.user_id == a.user_id,
        r.action == a.action,
        r.customer_id == a.customer_id,
        r.customer_name == a.customer_name,
        r.policy_type == a.policy_type,
        r.icon_type == a.icon_type,
        r.assigned_to == a.assigned_to,
        r.created_at == now,
{
    Activity {
        id: None,
        user_id: a.user_id,
        action: a.action,
        customer_id: a.customer_id,
        customer_name: a.customer_name,
        policy_type: a.policy_type,
        icon_type: a.icon_type,
        assigned_to: a.assigned_to,
        created_at: now,
    }
}

/// A manual entry, by and owned by the caller; a customer id that is not
/// 24 hex digits is a 400 "invalid id".
pub fn manual_activity(input: CreateActivityInput, caller: Oid) -> (r: Result<NewActivity, ApiError>)
    ensures
        r is Ok <==> opt_id_ok(input.customer_id),
        r matches Err(e) ==> (e matches ApiError::BadRequest(m) && m@ == "invalid id"@),
        r matches Ok(a) ==> {
            &&& a.user_id == caller
            &&& a.action == input.action
            &&& oid_opt_view(a.customer_id) == opt_id_bytes(input.customer_id)
            &&& a.customer_name == input.customer_name
            &&& a.policy_type == input.policy_type
            &&& a.icon_type == input.icon_type
            &&& a.assigned_to == Some(caller)
        },
{
    let customer_id = match parse_opt_oid(&input.customer_id) {
        Ok(o) => o,
        Err(e) => return Err(e),
    };
    Ok(NewActivity {
        user_id: caller,
        action: input.action,
        customer_id,
        customer_name: input.customer_name,
        policy_type: input.policy_type,
        icon_type: input.icon_type,
        assigned_to: Some(caller),
    })
}

/// The feed's filter: the customer when given, within the caller's scope.
pub fn activity_list_filter(q: &ListActivitiesQuery, scope: Filter) -> (r: Result<Filter, ApiError>)
    ensures
        r is Ok <==> opt_id_ok(q.customer_id),
        r matches Err(e) ==> (e matches ApiError::BadRequest(m) && m@ == "invalid id"@),
        r matches Ok(f) ==> f@ == combine_spec(FilterV::Doc(opt_id_cond("customer_id"@, q.customer_id)), scope@),
{
    let customer = match parse_opt_oid(&q.customer_id) {
        Ok(o) => o,
        Err(e) => return Err(e),
    };
    let mut cs: Vec<Cond> = Vec::new();
    if let Some(c) = customer {
        cs.push(Cond { field: "customer_id".to_string(), test: Test::Eq(Value::ObjectId(c)) });
    }
    let f = Filter::Doc(cs);
    assert(f@->Doc_0 =~= opt_id_cond("customer_id"@, q.customer_id));
    Ok(combine_filters(f, scope))
}

/// A manual entry must be found again once written: a 500 otherwise.
pub fn require_logged(a: Option<Activity>) -> (r: Result<Activity, ApiError>)
    ensures
        match a {
            Some(x) => r == Ok::<Activity, ApiError>(x),
            None => r matches Err(e) && e matches ApiError::Internal(m) && m@ == "activity insert did not persist"@,
        },
{
    match a {
        Some(x) => Ok(x),
        None => Err(ApiError::Internal("activity insert did not persist".to_string())),
    }
}

impl ActivityResponse {
    /// The API form of an activity: ids as hex (the id empty when absent).
    pub fn from_activity(a: Activity) -> (r: ActivityResponse)
        ensures
            r.id@ == opt_hex(a.id),
            r.user_id@ == hex_text(a.user_id.bytes@),
            r.action == a.action,
            match r.customer_id {
                Some(s) => opt_hex_text(a.customer_id) == Some(s@),
                None => a.customer_id is None,
            },
            r.customer_name == a.customer_name,
            r.policy_type == a.policy_type,
            r.icon_type == a.icon_type,
            r.created_at == a.created_at,
    {
        ActivityResponse {
            id: opt_id_hex(&a.id),
            user_id: a.user_id.to_hex(),
            action: a.action,
            customer_id: opt_to_hex(&a.customer_id),
            customer_name: a.customer_name,
            policy_type: a.policy_type,
            icon_type: a.icon_type,
            created_at: a.created_at,
        }
    }
}

} // verus!
