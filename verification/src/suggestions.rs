//! Suggestions: what workflow rules propose to staff instead of acting.
//! Scoped like the records they are about; dismissing or actioning one
//! records who did it and when.
use vstd::prelude::*;
use crate::error::{bad_request, ApiError};
use crate::filter::{combine_filters, combine_spec, eq_in_leaf, filter_holds, Cond, CondV, Filter, FilterV, Test, TestV};
use crate::oid::{hex_oid_bytes, hex_text, parse_oid, Oid};
use crate::policies::{fields_view, opt_hex_text, opt_to_hex, push_field, set_field};
use crate::reminders::{opt_hex, opt_id_hex};
use crate::value::{lookup_oid, lookup_value, str_eq, Field, FieldV, Value, ValueV};
use crate::workflow::{entity_key, entity_key_spec, EntityType};

verus! {

broadcast use vstd::string::group_string_axioms;

/// Where a suggestion stands.
#[derive(Clone, Copy, Debug, PartialEq, Eq, Structural)]
pub enum SuggestionStatus {
    Open,
    Dismissed,
    Actioned,
}

/// Stored name of a suggestion status.
pub open spec fn suggestion_status_key_spec(s: SuggestionStatus) -> Seq<char> {
    match s {
        SuggestionStatus::Open => "open"@,
        SuggestionStatus::Dismissed => "dismissed"@,
        SuggestionStatus::Actioned => "actioned"@,
    }
}

/// Stored name of a suggestion status.
pub fn suggestion_status_key(s: SuggestionStatus) -> (r: &'static str)
    ensures
        r@ == suggestion_status_key_spec(s),
{
    match s {
        SuggestionStatus::Open => "open",
        SuggestionStatus::Dismissed => "dismissed",
        SuggestionStatus::Actioned => "actioned",
    }
}

/// A proposal a workflow rule made about a record. `assigned_to` is the
/// record's owner (none for customers, which leaves it to admins).
pub struct Suggestion {
    pub id: Option<Oid>,
    pub rule_id: Oid,
    pub entity_type: EntityType,
    pub entity_id: Oid,
    pub assigned_to: Option<Oid>,
    pub message: String,
    pub status: SuggestionStatus,
    pub created_at: i64,
    pub dismissed_at: Option<i64>,
    pub dismissed_by: Option<Oid>,
}

/// A suggestion as the API returns it.
pub struct SuggestionResponse {
    pub id: String,
    pub rule_id: String,
    pub entity_type: EntityType,
    pub entity_id: String,
    pub message: String,
    pub status: SuggestionStatus,
    pub created_at: i64,
    pub dismissed_at: Option<i64>,
    pub dismissed_by: Option<String>,
}

/// A request to dismiss, action or reopen a suggestion.
pub struct UpdateSuggestionInput {
    pub status: SuggestionStatus,
}

/// Filter of the triage list: a status (Open when none is given).
pub struct ListSuggestionsQuery {
    pub status: Option<SuggestionStatus>,
}

/// The record kinds suggestions are listed for on a record's page.
pub open spec fn entity_type_of(s: Seq<char>) -> Option<EntityType> {
    if s == "renewal"@ {
        Some(EntityType::Renewal)
    } else if s == "policy"@ {
        Some(EntityType::Policy)
    } else if s == "customer"@ {
        Some(EntityType::Customer)
    } else {
        None
    }
}

/// Reads the record kind of a path: "renewal", "policy" or "customer";
/// anything else is a 400 "unknown entity type".
pub fn parse_entity_type(s: &str) -> (r: Result<EntityType, ApiError>)
    ensures
        match entity_type_of(s@) {
            Some(t) => r == Ok::<EntityType, ApiError>(t),
            None => r matches Err(e) && e matches ApiError::BadRequest(m) && m@ == "unknown entity type"@,
        },
{
    if str_eq(s, "renewal") {
        Ok(EntityType::Renewal)
    } else if str_eq(s, "policy") {
        Ok(EntityType::Policy)
    } else if str_eq(s, "customer") {
        Ok(EntityType::Customer)
    } else {
        Err(bad_request("unknown entity type"))
    }
}

/// `{"status": key}`.
pub open spec fn status_cond(s: SuggestionStatus) -> CondV {
    CondV { field: "status"@, test: TestV::Eq(ValueV::Str(suggestion_status_key_spec(s))) }
}

/// The triage list's filter: the status asked for (Open by default),
/// within the caller's scope.
pub fn suggestion_list_filter(q: &ListSuggestionsQuery, scope: Filter) -> (f: Filter)
    ensures
        f@ == combine_spec(
            FilterV::Doc(seq![status_cond(
                match q.status {
                    Some(s) => s,
                    None => SuggestionStatus::Open,
                },
            )]),
            scope@,
        ),
{
    let status = match q.status {
        Some(s) => s,
        None => SuggestionStatus::Open,
    };
    let f = Filter::single(Cond { field: "status".to_string(), test: Test::Eq(Value::Str(suggestion_status_key(status).to_string())) });
    combine_filters(f, scope)
}

/// The open suggestions about one record, within the caller's scope.
pub fn record_suggestions_filter(entity_type: EntityType, entity_id: Oid, scope: Filter) -> (f: Filter)
    ensures
        f@ == combine_spec(
            FilterV::Doc(seq![
                CondV { field: "entity_type"@, test: TestV::Eq(ValueV::Str(entity_key_spec(entity_type))) },
                CondV { field: "entity_id"@, test: TestV::Eq(ValueV::ObjectId(entity_id.bytes@)) },
                CondV { field: "status"@, test: TestV::Eq(ValueV::Str("open"@)) },
            ]),
            scope@,
        ),
{
    let mut cs: Vec<Cond> = Vec::new();
    cs.push(Cond { field: "entity_type".to_string(), test: Test::Eq(Value::Str(entity_key(entity_type).to_string())) });
    cs.push(Cond { field: "entity_id".to_string(), test: Test::Eq(Value::ObjectId(entity_id)) });
    cs.push(Cond { field: "status".to_string(), test: Test::Eq(Value::Str("open".to_string())) });
    let f = Filter::Doc(cs);
    assert(f@->Doc_0 =~= seq![
        CondV { field: "entity_type"@, test: TestV::Eq(ValueV::Str(entity_key_spec(entity_type))) },
        CondV { field: "entity_id"@, test: TestV::Eq(ValueV::ObjectId(entity_id.bytes@)) },
        CondV { field: "status"@, test: TestV::Eq(ValueV::Str("open"@)) },
    ]);
    combine_filters(f, scope)
}

/// What a status change of a suggestion sets: the status, and, unless it
/// is reopened, when and by whom it was closed.
pub fn suggestion_status_set(input: &UpdateSuggestionInput, caller: Oid, now: i64) -> (r: Vec<Field>)
    ensures
        fields_view(r@) == seq![set_field("status"@, ValueV::Str(suggestion_status_key_spec(input.status)))] + if input.status
            != SuggestionStatus::Open {
            seq![
                set_field("dismissed_at"@, ValueV::DateTime(now)),
                set_field("dismissed_by"@, ValueV::ObjectId(caller.bytes@)),
            ]
        } else {
            Seq::<FieldV>::empty()
        },
{
    let mut fs: Vec<Field> = Vec::new();
    push_field(&mut fs, "status", Value::Str(suggestion_status_key(input.status).to_string()));
    if input.status != SuggestionStatus::Open {
        push_field(&mut fs, "dismissed_at", Value::DateTime(now));
        push_field(&mut fs, "dismissed_by", Value::ObjectId(caller));
    }
    assert(fields_view(fs@) =~= seq![set_field("status"@, ValueV::Str(suggestion_status_key_spec(input.status)))] + if input.status
        != SuggestionStatus::Open {
        seq![
            set_field("dismissed_at"@, ValueV::DateTime(now)),
            set_field("dismissed_by"@, ValueV::ObjectId(caller.bytes@)),
        ]
    } else {
        Seq::<FieldV>::empty()
    });
    fs
}

/// The suggestion a rule's Suggest action opens: open, about the record,
/// owned by the record's owner.
pub fn new_suggestion(rule_id: Oid, entity_type: EntityType, entity_id: Oid, assigned_to: Option<Oid>, message: String, now: i64) -> (s: Suggestion)
    ensures
        s.id is None,
        s.rule_id == rule_id,
        s.entity_type == entity_type,
        s.entity_id == entity_id,
        s.assigned_to == assigned_to,
        s.message == message,
        s.status == SuggestionStatus::Open,
        s.created_at == now,
        s.dismissed_at is None,
        s.dismissed_by is None,
{
    Suggestion {
        id: None,
        rule_id,
        entity_type,
        entity_id,
        assigned_to,
        message,
        status: SuggestionStatus::Open,
        created_at: now,
        dismissed_at: None,
        dismissed_by: None,
    }
}

/// The open suggestion a rule opens about a record at `now`.
pub open spec fn opened_suggestion(
    rule_id: Oid,
    entity_type: EntityType,
    entity_id: Oid,
    assigned_to: Option<Oid>,
    message: String,
    now: i64,
) -> Suggestion {
    Suggestion {
        id: None,
        rule_id,
        entity_type,
        entity_id,
        assigned_to,
        message,
        status: SuggestionStatus::Open,
        created_at: now,
        dismissed_at: None,
        dismissed_by: None,
    }
}

/// What a rule opening a suggestion inserts: nothing when the duplicate
/// check found an open suggestion of the rule about the record, else the
/// new open suggestion.
pub open spec fn insert_decision(
    rule_id: Oid,
    entity_type: EntityType,
    entity_id: Oid,
    assigned_to: Option<Oid>,
    message: String,
    open_exists: bool,
    now: i64,
) -> Option<Suggestion> {
    if open_exists {
        None
    } else {
        Some(opened_suggestion(rule_id, entity_type, entity_id, assigned_to, message, now))
    }
}

/// Decides the insert of a Suggest (or drafted) action, given whether the
/// duplicate check found an open suggestion of the rule about the record.
pub fn suggestion_to_insert(
    rule_id: Oid,
    entity_type: EntityType,
    entity_id: Oid,
    assigned_to: Option<Oid>,
    message: String,
    open_exists: bool,
    now: i64,
) -> (r: Option<Suggestion>)
    ensures
        r == insert_decision(rule_id, entity_type, entity_id, assigned_to, message, open_exists, now),
{
    if open_exists {
        None
    } else {
        Some(new_suggestion(rule_id, entity_type, entity_id, assigned_to, message, now))
    }
}

/// The suggestion is an open one of the rule about the record.
pub open spec fn is_open_for(s: Suggestion, rule_id: Oid, entity_id: Oid) -> bool {
    s.rule_id == rule_id && s.entity_id == entity_id && s.status == SuggestionStatus::Open
}

/// How many open suggestions of the rule about the record the store holds.
pub open spec fn open_count(store: Seq<Suggestion>, rule_id: Oid, entity_id: Oid) -> nat {
    store.filter(|s: Suggestion| is_open_for(s, rule_id, entity_id)).len()
}

/// The store after an insert-or-skip.
pub open spec fn after_insert(store: Seq<Suggestion>, r: Option<Suggestion>) -> Seq<Suggestion> {
    match r {
        Some(s) => store.push(s),
        None => store,
    }
}

/// A rule keeps at most one open suggestion per record: when the duplicate
/// check reports whether the store holds an open suggestion of the rule
/// about the record, the store after the insert-or-skip holds exactly one,
/// however often the action runs.
pub proof fn lemma_one_open_suggestion(
    store: Seq<Suggestion>,
    rule_id: Oid,
    entity_type: EntityType,
    entity_id: Oid,
    assigned_to: Option<Oid>,
    message: String,
    now: i64,
)
    requires
        open_count(store, rule_id, entity_id) <= 1,
    ensures
        open_count(
            after_insert(
                store,
                insert_decision(
                    rule_id,
                    entity_type,
                    entity_id,
                    assigned_to,
                    message,
                    open_count(store, rule_id, entity_id) > 0,
                    now,
                ),
            ),
            rule_id,
            entity_id,
        ) == 1,
{
    if open_count(store, rule_id, entity_id) == 0 {
        let s = opened_suggestion(rule_id, entity_type, entity_id, assigned_to, message, now);
        let pred = |x: Suggestion| is_open_for(x, rule_id, entity_id);
        let pushed = store.push(s);
        assert(pushed.drop_last() =~= store);
        assert(pushed.last() == s);
        reveal(Seq::filter);
        assert(pushed.filter(pred) == store.filter(pred).push(s));
    }
}

/// `{rule_id: rule, entity_id: record, status: "open"}`.
pub open spec fn open_suggestion_spec(rule_id: Oid, entity_id: Oid) -> FilterV {
    FilterV::Doc(seq![
        CondV { field: "rule_id"@, test: TestV::Eq(ValueV::ObjectId(rule_id.bytes@)) },
        CondV { field: "entity_id"@, test: TestV::Eq(ValueV::ObjectId(entity_id.bytes@)) },
        CondV { field: "status"@, test: TestV::Eq(ValueV::Str("open"@)) },
    ])
}

/// The duplicate check made before a rule opens a suggestion finds exactly
/// the open suggestions of that rule about that record.
pub proof fn lemma_open_suggestion_match(rule_id: Oid, entity_id: Oid, r: Seq<FieldV>)
    ensures
        filter_holds(open_suggestion_spec(rule_id, entity_id), r, |c: CondV, x: Seq<FieldV>| eq_in_leaf(c, x)) <==> (
        lookup_oid(r, "rule_id"@) == Some(rule_id.bytes@) && lookup_oid(r, "entity_id"@) == Some(entity_id.bytes@)
            && lookup_value(r, "status"@) == Some(ValueV::Str("open"@))),
{
    let leaf = |c: CondV, x: Seq<FieldV>| eq_in_leaf(c, x);
    let cs = open_suggestion_spec(rule_id, entity_id)->Doc_0;
    assert(leaf(cs[0], r) <==> lookup_oid(r, "rule_id"@) == Some(rule_id.bytes@));
    assert(leaf(cs[1], r) <==> lookup_oid(r, "entity_id"@) == Some(entity_id.bytes@));
    assert(leaf(cs[2], r) <==> lookup_value(r, "status"@) == Some(ValueV::Str("open"@)));
    if leaf(cs[0], r) && leaf(cs[1], r) && leaf(cs[2], r) {
        assert forall|i: int| 0 <= i < cs.len() implies #[trigger] leaf(cs[i], r) by {}
    }
}

/// A stored document of suggestion `s`: its rule, record and status under
/// their stored names.
pub open spec fn stores_suggestion(r: Seq<FieldV>, s: Suggestion) -> bool {
    &&& lookup_oid(r, "rule_id"@) == Some(s.rule_id.bytes@)
    &&& lookup_oid(r, "entity_id"@) == Some(s.entity_id.bytes@)
    &&& lookup_value(r, "status"@) == Some(ValueV::Str(suggestion_status_key_spec(s.status)))
}

/// A rule leaves at most one open suggestion per record: the duplicate
/// check made before opening one finds a stored suggestion exactly when it
/// is an open one of the same rule about the same record, so once a
/// suggestion has been opened, the next check of that rule and record
/// finds it and nothing more is inserted.
pub proof fn lemma_duplicate_check_finds_open(s: Suggestion, r: Seq<FieldV>, rule_id: Oid, entity_id: Oid)
    requires
        stores_suggestion(r, s),
    ensures
        filter_holds(open_suggestion_spec(rule_id, entity_id), r, |c: CondV, x: Seq<FieldV>| eq_in_leaf(c, x)) <==> (
        s.rule_id.bytes@ == rule_id.bytes@ && s.entity_id.bytes@ == entity_id.bytes@ && s.status
            == SuggestionStatus::Open),
{
    lemma_open_suggestion_match(rule_id, entity_id, r);
    reveal_strlit("open");
    reveal_strlit("dismissed");
    reveal_strlit("actioned");
    assert("dismissed"@ != "open"@ && "actioned"@ != "open"@) by {
        assert("dismissed"@.len() != "open"@.len());
        assert("actioned"@.len() != "open"@.len());
    }
}

/// A rule opens at most one suggestion per record at a time: the open
/// suggestion of this rule about this record, if any.
pub fn open_suggestion_filter(rule_id: Oid, entity_id: Oid) -> (f: Filter)
    ensures
        f@ == open_suggestion_spec(rule_id, entity_id),
{
    let mut cs: Vec<Cond> = Vec::new();
    cs.push(Cond { field: "rule_id".to_string(), test: Test::Eq(Value::ObjectId(rule_id)) });
    cs.push(Cond { field: "entity_id".to_string(), test: Test::Eq(Value::ObjectId(entity_id)) });
    cs.push(Cond { field: "status".to_string(), test: Test::Eq(Value::Str("open".to_string())) });
    let f = Filter::Doc(cs);
    assert(f@->Doc_0 =~= seq![
        CondV { field: "rule_id"@, test: TestV::Eq(ValueV::ObjectId(rule_id.bytes@)) },
        CondV { field: "entity_id"@, test: TestV::Eq(ValueV::ObjectId(entity_id.bytes@)) },
        CondV { field: "status"@, test: TestV::Eq(ValueV::Str("open"@)) },
    ]);
    f
}

impl SuggestionResponse {
    /// The API form of a suggestion: ids as hex (the id empty when absent).
    pub fn from_suggestion(s: Suggestion) -> (r: SuggestionResponse)
        ensures
            r.id@ == opt_hex(s.id),
            r.rule_id@ == hex_text(s.rule_id.bytes@),
            r.entity_type == s.entity_type,
            r.entity_id@ == hex_text(s.entity_id.bytes@),
            r.message == s.message,
            r.status == s.status,
            r.created_at == s.created_at,
            r.dismissed_at == s.dismissed_at,
            match r.dismissed_by {
                Some(x) => opt_hex_text(s.dismissed_by) == Some(x@),
                None => s.dismissed_by is None,
            },
    {
        SuggestionResponse {
            id: opt_id_hex(&s.id),
            rule_id: s.rule_id.to_hex(),
            entity_type: s.entity_type,
            entity_id: s.entity_id.to_hex(),
            message: s.message,
            status: s.status,
            created_at: s.created_at,
            dismissed_at: s.dismissed_at,
            dismissed_by: opt_to_hex(&s.dismissed_by),
        }
    }
}

} // verus!
