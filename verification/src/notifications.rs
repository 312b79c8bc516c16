//! In-app notifications: what a reminder or a workflow rule stores, how a
//! live delivery attempt changes it, and the reads of a user's bell.
use vstd::prelude::*;
use crate::filter::{Cond, CondV, Filter, FilterV, Test, TestV};
use crate::oid::{hex_text, Oid};
use crate::policies::{fields_view, push_field, set_field};
use crate::reminders::{opt_hex, opt_id_hex, NotificationChannel, NotificationStatus, UpsertNotificationRuleInput};
use crate::value::{Field, FieldV, Value, ValueV};

verus! {

broadcast use vstd::string::group_string_axioms;

/// A notification to a user about a renewal.
#[derive(Clone)]
pub struct Notification {
    pub id: Option<Oid>,
    pub renewal_id: Oid,
    pub customer_id: Option<Oid>,
    pub user_id: Oid,
    pub channel: NotificationChannel,
    pub status: NotificationStatus,
    pub message: String,
    /// The reminder threshold (days before due) that raised it.
    pub offset_days: i64,
    pub sent_at: Option<i64>,
    pub read_at: Option<i64>,
    pub created_at: i64,
}

/// A notification as the API returns it.
pub struct NotificationResponse {
    pub id: String,
    pub renewal_id: String,
    pub channel: NotificationChannel,
    pub status: NotificationStatus,
    pub message: String,
    pub offset_days: i64,
    pub sent_at: Option<i64>,
    pub read_at: Option<i64>,
    pub created_at: i64,
}

/// A new notification: in-app, queued, unsent and unread.
pub fn new_notification(
    renewal_id: Oid,
    customer_id: Option<Oid>,
    user_id: Oid,
    message: String,
    offset_days: i64,
    now: i64,
) -> (n: Notification)
    ensures
        n.id is None,
        n.renewal_id == renewal_id,
        n.customer_id == customer_id,
        n.user_id == user_id,
        n.channel == NotificationChannel::InApp,
        n.status == NotificationStatus::Queued,
        n.message == message,
        n.offset_days == offset_days,
        n.sent_at is None,
        n.read_at is None,
        n.created_at == now,
{
    Notification {
        id: None,
        renewal_id,
        customer_id,
        user_id,
        channel: NotificationChannel::InApp,
        status: NotificationStatus::Queued,
        message,
        offset_days,
        sent_at: None,
        read_at: None,
        created_at: now,
    }
}

/// `n` as marked delivered at `now`: status Sent, sent at `now`, the rest
/// as it was.
pub open spec fn marked_sent(n: Notification, now: i64) -> Notification {
    Notification { status: NotificationStatus::Sent, sent_at: Some(now), ..n }
}

/// `n` put back in the queue: status Queued, no sent time, the rest as it
/// was.
pub open spec fn requeued(n: Notification) -> Notification {
    Notification { status: NotificationStatus::Queued, sent_at: None, ..n }
}

/// Marks a notification as pushed to the user's open connections at
/// `now`, before the push (the pushed copy shows it delivered).
pub fn mark_sent(n: &mut Notification, now: i64)
    ensures
        *final(n) == marked_sent(*old(n), now),
{
    n.status = NotificationStatus::Sent;
    n.sent_at = Some(now);
}

/// The outcome of a push: delivered to some connection, the notification
/// stays sent (and is stored so); otherwise it goes back to queued for the
/// bell to pick up. Returns whether to store the sent state.
pub fn settle_delivery(n: &mut Notification, delivered: bool) -> (store: bool)
    ensures
        store == delivered,
        delivered ==> *final(n) == *old(n),
        !delivered ==> *final(n) == requeued(*old(n)),
{
    if !delivered {
        n.status = NotificationStatus::Queued;
        n.sent_at = None;
    }
    delivered
}

/// A push that reached no connection leaves a queued, unsent notification
/// exactly as it was: marking it sent and then settling the failed
/// delivery gives back the same notification.
pub proof fn lemma_failed_push_restores(n: Notification, now: i64)
    requires
        n.status == NotificationStatus::Queued,
        n.sent_at is None,
    ensures
        requeued(marked_sent(n, now)) == n,
{
}

/// What storing a delivered notification writes.
pub fn sent_set(now: i64) -> (r: Vec<Field>)
    ensures
        fields_view(r@) == seq![set_field("status"@, ValueV::Str("sent"@)), set_field("sent_at"@, ValueV::DateTime(now))],
{
    let mut fs: Vec<Field> = Vec::new();
    push_field(&mut fs, "status", Value::Str("sent".to_string()));
    push_field(&mut fs, "sent_at", Value::DateTime(now));
    assert(fields_view(fs@) =~= seq![set_field("status"@, ValueV::Str("sent"@)), set_field("sent_at"@, ValueV::DateTime(now))]);
    fs
}

/// A user's own notifications (and, with an id, one of them).
pub fn my_notifications_filter(me: Oid, id: Option<Oid>) -> (f: Filter)
    ensures
        f@ == FilterV::Doc(match id {
            Some(i) => seq![
                CondV { field: "_id"@, test: TestV::Eq(ValueV::ObjectId(i.bytes@)) },
                CondV { field: "user_id"@, test: TestV::Eq(ValueV::ObjectId(me.bytes@)) },
            ],
            None => seq![CondV { field: "user_id"@, test: TestV::Eq(ValueV::ObjectId(me.bytes@)) }],
        }),
{
    let mut cs: Vec<Cond> = Vec::new();
    if let Some(i) = id {
        cs.push(Cond { field: "_id".to_string(), test: Test::Eq(Value::ObjectId(i)) });
    }
    cs.push(Cond { field: "user_id".to_string(), test: Test::Eq(Value::ObjectId(me)) });
    let f = Filter::Doc(cs);
    assert(f@->Doc_0 =~= match id {
        Some(i) => seq![
            CondV { field: "_id"@, test: TestV::Eq(ValueV::ObjectId(i.bytes@)) },
            CondV { field: "user_id"@, test: TestV::Eq(ValueV::ObjectId(me.bytes@)) },
        ],
        None => seq![CondV { field: "user_id"@, test: TestV::Eq(ValueV::ObjectId(me.bytes@)) }],
    });
    f
}

/// The reminder rule an upsert replaces: the one for the same policy type
/// (the catch-all rule when none is given).
pub fn rule_upsert_filter(input: &UpsertNotificationRuleInput) -> (f: Filter)
    ensures
        f@ == FilterV::Doc(seq![CondV {
            field: "policy_type"@,
            test: TestV::Eq(match input.policy_type {
                Some(t) => ValueV::Str(t@),
                None => ValueV::Null,
            }),
        }]),
{
    let v = match &input.policy_type {
        Some(t) => Value::Str(t.clone()),
        None => Value::Null,
    };
    Filter::single(Cond { field: "policy_type".to_string(), test: Test::Eq(v) })
}

impl NotificationResponse {
    /// The API form of a notification: ids as hex (the id empty when absent).
    pub fn from_notification(n: Notification) -> (r: NotificationResponse)
        ensures
            r.id@ == opt_hex(n.id),
            r.renewal_id@ == hex_text(n.renewal_id.bytes@),
            r.channel == n.channel,
            r.status == n.status,
            r.message == n.message,
            r.offset_days == n.offset_days,
            r.sent_at == n.sent_at,
            r.read_at == n.read_at,
            r.created_at == n.created_at,
    {
        NotificationResponse {
            id: opt_id_hex(&n.id),
            renewal_id: n.renewal_id.to_hex(),
            channel: n.channel,
            status: n.status,
            message: n.message,
            offset_days: n.offset_days,
            sent_at: n.sent_at,
            read_at: n.read_at,
            created_at: n.created_at,
        }
    }
}

} // verus!
