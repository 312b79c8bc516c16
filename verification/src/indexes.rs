//! The secondary indexes the database is given at startup.
use vstd::prelude::*;

verus! {

broadcast use vstd::string::group_string_axioms;

/// One key of an index: a field and its direction (1 ascending, -1 descending).
pub struct IndexKey {
    pub field: String,
    pub direction: i32,
}

/// An index on a collection.
pub struct IndexSpec {
    pub collection: String,
    pub keys: Vec<IndexKey>,
    pub unique: bool,
}

/// View of an index.
pub struct IndexV {
    pub collection: Seq<char>,
    pub keys: Seq<(Seq<char>, i32)>,
    pub unique: bool,
}

/// Views of an index's keys: field and direction.
pub open spec fn keys_view(ks: Seq<IndexKey>) -> Seq<(Seq<char>, i32)> {
    ks.map_values(|k: IndexKey| (k.field@, k.direction))
}

/// View of an index spec.
pub open spec fn index_view(ix: IndexSpec) -> IndexV {
    IndexV { collection: ix.collection@, keys: keys_view(ix.keys@), unique: ix.unique }
}

/// Views of index specs.
pub open spec fn indexes_view(s: Seq<IndexSpec>) -> Seq<IndexV> {
    s.map_values(|ix: IndexSpec| index_view(ix))
}

/// The index of `collection` on `keys`, unique or not.
pub open spec fn ixv(collection: Seq<char>, keys: Seq<(Seq<char>, i32)>, unique: bool) -> IndexV {
    IndexV { collection, keys, unique }
}

/// Every index the application relies on, in the order they are created.
pub open spec fn index_plan() -> Seq<IndexV> {
    seq![
        ixv("users"@, seq![("email"@, 1i32)], true),
        ixv("policies"@, seq![("customer_id"@, 1i32)], false),
        ixv("policies"@, seq![("policy_number"@, 1i32)], true),
        ixv("renewals"@, seq![("due_date"@, 1i32)], false),
        ixv("renewals"@, seq![("status"@, 1i32)], false),
        ixv("renewals"@, seq![("assigned_to"@, 1i32)], false),
        ixv("documents"@, seq![("policy_id"@, 1i32)], false),
        ixv("notifications"@, seq![("user_id"@, 1i32), ("status"@, 1i32)], false),
        ixv("teams"@, seq![("manager_id"@, 1i32)], false),
        ixv("saved_views"@, seq![("object"@, 1i32), ("owner_id"@, 1i32)], false),
        ixv("workflow_rules"@, seq![("entity_type"@, 1i32), ("enabled"@, 1i32)], false),
        ixv("workflow_trigger_state"@, seq![("rule_id"@, 1i32), ("entity_id"@, 1i32)], true),
        ixv("suggestions"@, seq![("assigned_to"@, 1i32), ("status"@, 1i32)], false),
        ixv("suggestions"@, seq![("entity_type"@, 1i32), ("entity_id"@, 1i32), ("status"@, 1i32)], false),
        ixv("dashboard_widgets"@, seq![("user_id"@, 1i32), ("position"@, 1i32)], false),
        ixv("leads"@, seq![("assigned_to"@, 1i32), ("stage"@, 1i32)], false),
        ixv("claims"@, seq![("customer_id"@, 1i32)], false),
        ixv("claims"@, seq![("assigned_to"@, 1i32), ("status"@, 1i32)], false),
        ixv("payments"@, seq![("customer_id"@, 1i32)], false),
        ixv("payments"@, seq![("assigned_to"@, 1i32), ("status"@, 1i32)], false),
        ixv("activities"@, seq![("customer_id"@, 1i32)], false),
        ixv("activities"@, seq![("assigned_to"@, 1i32), ("created_at"@, -1i32)], false),
        ixv("documents"@, seq![("customer_id"@, 1i32)], false),
        ixv("messages"@, seq![("sender_id"@, 1i32), ("recipient_id"@, 1i32), ("created_at"@, -1i32)], false),
        ixv("messages"@, seq![("recipient_id"@, 1i32), ("sender_id"@, 1i32), ("created_at"@, -1i32)], false),
    ]
}

fn key(field: &str, direction: i32) -> (k: IndexKey)
    ensures
        k.field@ == field@,
        k.direction == direction,
{
    IndexKey { field: field.to_string(), direction }
}

fn index1(collection: &str, a: &str, da: i32, unique: bool) -> (ix: IndexSpec)
    ensures
        index_view(ix) == ixv(collection@, seq![(a@, da)], unique),
{
    let keys = vec![key(a, da)];
    let ix = IndexSpec { collection: collection.to_string(), keys, unique };
    assert(keys_view(ix.keys@) =~= seq![(a@, da)]);
    ix
}

fn index2(collection: &str, a: &str, b: &str, db: i32) -> (ix: IndexSpec)
    ensures
        index_view(ix) == ixv(collection@, seq![(a@, 1i32), (b@, db)], false),
{
    let keys = vec![key(a, 1), key(b, db)];
    let ix = IndexSpec { collection: collection.to_string(), keys, unique: false };
    assert(keys_view(ix.keys@) =~= seq![(a@, 1i32), (b@, db)]);
    ix
}

fn index3(collection: &str, a: &str, b: &str, c: &str, dc: i32) -> (ix: IndexSpec)
    ensures
        index_view(ix) == ixv(collection@, seq![(a@, 1i32), (b@, 1i32), (c@, dc)], false),
{
    let keys = vec![key(a, 1), key(b, 1), key(c, dc)];
    let ix = IndexSpec { collection: collection.to_string(), keys, unique: false };
    assert(keys_view(ix.keys@) =~= seq![(a@, 1i32), (b@, 1i32), (c@, dc)]);
    ix
}

/// The indexes to create at startup, exactly `index_plan()`.
#[verifier::rlimit(40)]
pub fn required_indexes() -> (r: Vec<IndexSpec>)
    ensures
        indexes_view(r@) == index_plan(),
{
    let mut uk = index2("workflow_trigger_state", "rule_id", "entity_id", 1);
    uk.unique = true;
    let r = vec![
        index1("users", "email", 1, true),
        index1("policies", "customer_id", 1, false),
        index1("policies", "policy_number", 1, true),
        index1("renewals", "due_date", 1, false),
        index1("renewals", "status", 1, false),
        index1("renewals", "assigned_to", 1, false),
        index1("documents", "policy_id", 1, false),
        index2("notifications", "user_id", "status", 1),
        index1("teams", "manager_id", 1, false),
        index2("saved_views", "object", "owner_id", 1),
        index2("workflow_rules", "entity_type", "enabled", 1),
        uk,
        index2("suggestions", "assigned_to", "status", 1),
        index3("suggestions", "entity_type", "entity_id", "status", 1),
        index2("dashboard_widgets", "user_id", "position", 1),
        index2("leads", "assigned_to", "stage", 1),
        index1("claims", "customer_id", 1, false),
        index2("claims", "assigned_to", "status", 1),
        index1("payments", "customer_id", 1, false),
        index2("payments", "assigned_to", "status", 1),
        index1("activities", "customer_id", 1, false),
        index2("activities", "assigned_to", "created_at", -1),
        index1("documents", "customer_id", 1, false),
        index3("messages", "sender_id", "recipient_id", "created_at", -1),
        index3("messages", "recipient_id", "sender_id", "created_at", -1),
    ];
    assert(indexes_view(r@) =~= index_plan());
    r
}

} // verus!
