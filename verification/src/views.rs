//! Personal list views and pinned dashboard widgets: a saved view is a
//! list query string (shared or private), a widget a report with its
//! filters, pinned by one user.
use vstd::prelude::*;
use crate::filter::{Cond, CondV, Filter, FilterV, Test, TestV};
use crate::oid::{hex_text, Oid};
use crate::reminders::{opt_hex, opt_id_hex};
use crate::reports::ReportKey;
use crate::value::{Value, ValueV};

verus! {

broadcast use vstd::string::group_string_axioms;

/// The list a saved view applies to.
#[derive(Clone, Copy, Debug, PartialEq, Eq, Structural)]
pub enum ListObject {
    Customers,
    Policies,
    Renewals,
}

/// Stored name of a list.
pub open spec fn list_object_key_spec(o: ListObject) -> Seq<char> {
    match o {
        ListObject::Customers => "customers"@,
        ListObject::Policies => "policies"@,
        ListObject::Renewals => "renewals"@,
    }
}

/// Stored name of a list.
pub fn list_object_key(o: ListObject) -> (r: &'static str)
    ensures
        r@ == list_object_key_spec(o),
{
    match o {
        ListObject::Customers => "customers",
        ListObject::Policies => "policies",
        ListObject::Renewals => "renewals",
    }
}

/// A saved list view: the list's query string as the user built it.
pub struct SavedView {
    pub id: Option<Oid>,
    pub object: ListObject,
    pub name: String,
    pub owner_id: Oid,
    pub is_shared: bool,
    pub query: String,
    pub created_at: i64,
}

/// A request to save a view (private unless shared).
pub struct CreateSavedViewInput {
    pub object: ListObject,
    pub name: String,
    pub is_shared: Option<bool>,
    pub query: String,
}

/// Which list's views to fetch.
pub struct ListSavedViewsQuery {
    pub object: ListObject,
}

/// A saved view as the API returns it.
pub struct SavedViewResponse {
    pub id: String,
    pub object: ListObject,
    pub name: String,
    pub owner_id: String,
    pub is_shared: bool,
    pub query: String,
    pub created_at: i64,
}

/// The views of a list a caller may use: their own, and shared ones.
pub fn saved_views_filter(q: &ListSavedViewsQuery, me: Oid) -> (f: Filter)
    ensures
        f@ == FilterV::And(
            Box::new(FilterV::Doc(seq![CondV { field: "object"@, test: TestV::Eq(ValueV::Str(list_object_key_spec(q.object))) }])),
            Box::new(FilterV::AnyOf(seq![
                CondV { field: "owner_id"@, test: TestV::Eq(ValueV::ObjectId(me.bytes@)) },
                CondV { field: "is_shared"@, test: TestV::Eq(ValueV::Bool(true)) },
            ])),
        ),
{
    let a = Filter::single(Cond { field: "object".to_string(), test: Test::Eq(Value::Str(list_object_key(q.object).to_string())) });
    let mut cs: Vec<Cond> = Vec::new();
    cs.push(Cond { field: "owner_id".to_string(), test: Test::Eq(Value::ObjectId(me)) });
    cs.push(Cond { field: "is_shared".to_string(), test: Test::Eq(Value::Bool(true)) });
    let b = Filter::AnyOf(cs);
    assert(b@->AnyOf_0 =~= seq![
        CondV { field: "owner_id"@, test: TestV::Eq(ValueV::ObjectId(me.bytes@)) },
        CondV { field: "is_shared"@, test: TestV::Eq(ValueV::Bool(true)) },
    ]);
    Filter::And(Box::new(a), Box::new(b))
}

/// The view a request saves, owned by the caller, private unless asked.
pub fn new_saved_view(input: CreateSavedViewInput, me: Oid, now: i64) -> (v: SavedView)
    ensures
        v.id is None,
        v.object == input.object,
        v.name == input.name,
        v.owner_id == me,
        v.is_shared == match input.is_shared {
            Some(b) => b,
            None => false,
        },
        v.query == input.query,
        v.created_at == now,
{
    SavedView {
        id: None,
        object: input.object,
        name: input.name,
        owner_id: me,
        is_shared: match input.is_shared {
            Some(b) => b,
            None => false,
        },
        query: input.query,
        created_at: now,
    }
}

/// One of the caller's own records by id (a shared view is deleted only by
/// its owner; a widget only by whoever pinned it).
pub fn own_record_filter(id: Oid, owner_field: &str, me: Oid) -> (f: Filter)
    ensures
        f@ == FilterV::Doc(seq![
            CondV { field: "_id"@, test: TestV::Eq(ValueV::ObjectId(id.bytes@)) },
            CondV { field: owner_field@, test: TestV::Eq(ValueV::ObjectId(me.bytes@)) },
        ]),
{
    let mut cs: Vec<Cond> = Vec::new();
    cs.push(Cond { field: "_id".to_string(), test: Test::Eq(Value::ObjectId(id)) });
    cs.push(Cond { field: owner_field.to_string(), test: Test::Eq(Value::ObjectId(me)) });
    let f = Filter::Doc(cs);
    assert(f@->Doc_0 =~= seq![
        CondV { field: "_id"@, test: TestV::Eq(ValueV::ObjectId(id.bytes@)) },
        CondV { field: owner_field@, test: TestV::Eq(ValueV::ObjectId(me.bytes@)) },
    ]);
    f
}

impl SavedViewResponse {
    /// The API form of a saved view: ids as hex (the id empty when absent).
    pub fn from_view(v: SavedView) -> (r: SavedViewResponse)
        ensures
            r.id@ == opt_hex(v.id),
            r.object == v.object,
            r.name == v.name,
            r.owner_id@ == hex_text(v.owner_id.bytes@),
            r.is_shared == v.is_shared,
            r.query == v.query,
            r.created_at == v.created_at,
    {
        SavedViewResponse {
            id: opt_id_hex(&v.id),
            object: v.object,
            name: v.name,
            owner_id: v.owner_id.to_hex(),
            is_shared: v.is_shared,
            query: v.query,
            created_at: v.created_at,
        }
    }
}

/// The filters a pinned widget replays against its report: days as
/// "YYYY-MM-DD" text.
pub struct WidgetParams {
    pub date_from: String,
    pub date_to: String,
    pub insurer_name: Option<String>,
    pub policy_type: Option<String>,
}

/// A report pinned to one user's dashboard, at a position.
pub struct DashboardWidget {
    pub id: Option<Oid>,
    pub user_id: Oid,
    pub report_key: ReportKey,
    pub title: String,
    pub params: WidgetParams,
    pub position: i32,
    pub created_at: i64,
}

/// A request to pin a report.
pub struct CreateDashboardWidgetInput {
    pub report_key: ReportKey,
    pub title: String,
    pub params: WidgetParams,
}

/// A widget as the API returns it.
pub struct DashboardWidgetResponse {
    pub id: String,
    pub report_key: ReportKey,
    pub title: String,
    pub params: WidgetParams,
    pub position: i32,
    pub created_at: i64,
}

/// The widget a pin creates, placed after the caller's `pinned` existing
/// widgets (the count taken as an `i32`, as stored).
pub fn new_widget(input: CreateDashboardWidgetInput, me: Oid, pinned: u64, now: i64) -> (w: DashboardWidget)
    ensures
        w.id is None,
        w.user_id == me,
        w.report_key == input.report_key,
        w.title == input.title,
        w.params == input.params,
        w.position == pinned as i32,
        w.created_at == now,
{
    DashboardWidget {
        id: None,
        user_id: me,
        report_key: input.report_key,
        title: input.title,
        params: input.params,
        position: pinned as i32,
        created_at: now,
    }
}

/// The caller's own widgets.
pub fn my_widgets_filter(me: Oid) -> (f: Filter)
    ensures
        f@ == FilterV::Doc(seq![CondV { field: "user_id"@, test: TestV::Eq(ValueV::ObjectId(me.bytes@)) }]),
{
    Filter::single(Cond { field: "user_id".to_string(), test: Test::Eq(Value::ObjectId(me)) })
}

impl DashboardWidgetResponse {
    /// The API form of a widget: its id as hex (empty when absent).
    pub fn from_widget(w: DashboardWidget) -> (r: DashboardWidgetResponse)
        ensures
            r.id@ == opt_hex(w.id),
            r.report_key == w.report_key,
            r.title == w.title,
            r.params == w.params,
            r.position == w.position,
            r.created_at == w.created_at,
    {
        DashboardWidgetResponse {
            id: opt_id_hex(&w.id),
            report_key: w.report_key,
            title: w.title,
            params: w.params,
            position: w.position,
            created_at: w.created_at,
        }
    }
}

} // verus!
