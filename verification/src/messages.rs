//! Staff direct messages: end-to-end encrypted, so the server only relays
//! ciphertext. Who may send to whom, which messages a caller sees, and the
//! per-partner thread list.
use vstd::prelude::*;
use crate::error::{bad_request, ApiError};
use crate::filter::{eq_in_leaf, filter_holds, Cond, CondV, Filter, FilterV, Test, TestV};
use crate::oid::{hex_oid_bytes, hex_text, parse_oid, Oid};
use crate::reminders::{opt_hex, opt_id_hex};
use crate::value::{lookup_oid, FieldV, Value, ValueV};

verus! {

broadcast use vstd::string::group_string_axioms;

/// A direct message; `ciphertext` and `iv` are opaque to the server.
#[derive(Clone)]
pub struct Message {
    pub id: Option<Oid>,
    pub sender_id: Oid,
    pub recipient_id: Oid,
    pub ciphertext: String,
    pub iv: String,
    pub read_at: Option<i64>,
    pub created_at: i64,
}

/// A request to send a message (recipient id as hex text).
pub struct SendMessageInput {
    pub recipient_id: String,
    pub ciphertext: String,
    pub iv: String,
}

/// A message as the API returns it.
pub struct MessageResponse {
    pub id: String,
    pub sender_id: String,
    pub recipient_id: String,
    pub ciphertext: String,
    pub iv: String,
    pub read_at: Option<i64>,
    pub created_at: i64,
}

/// One row of the thread list: the partner, the latest message, and how
/// many of the partner's messages to the caller are unread.
pub struct MessageThreadSummary {
    pub partner_id: String,
    pub partner_name: String,
    pub last_message: MessageResponse,
    pub unread_count: u32,
}

/// How many messages of a thread to return.
pub struct ThreadQuery {
    pub page_size: Option<u64>,
}

/// `{field: id}`.
pub open spec fn id_cond(field: Seq<char>, id: Oid) -> CondV {
    CondV { field, test: TestV::Eq(ValueV::ObjectId(id.bytes@)) }
}

/// `{field: id}`.
fn id_eq(field: &str, id: Oid) -> (c: Cond)
    ensures
        c@ == id_cond(field@, id),
{
    Cond { field: field.to_string(), test: Test::Eq(Value::ObjectId(id)) }
}

/// `{"$or": [{sender_id: me}, {recipient_id: me}]}`.
pub open spec fn my_messages_spec(me: Oid) -> FilterV {
    FilterV::AnyOf(seq![id_cond("sender_id"@, me), id_cond("recipient_id"@, me)])
}

/// `{"$or": [{sender_id: me, recipient_id: partner}, {sender_id: partner, recipient_id: me}]}`.
pub open spec fn thread_spec(me: Oid, partner: Oid) -> FilterV {
    FilterV::Either(
        Box::new(FilterV::Doc(seq![id_cond("sender_id"@, me), id_cond("recipient_id"@, partner)])),
        Box::new(FilterV::Doc(seq![id_cond("sender_id"@, partner), id_cond("recipient_id"@, me)])),
    )
}

/// Meaning of a condition on a stored message (equality on its fields).
pub open spec fn message_leaf() -> spec_fn(CondV, Seq<FieldV>) -> bool {
    |c: CondV, x: Seq<FieldV>| eq_in_leaf(c, x)
}

/// An id condition holds exactly when the field holds that id.
proof fn lemma_id_cond(field: Seq<char>, id: Oid, r: Seq<FieldV>)
    ensures
        eq_in_leaf(id_cond(field, id), r) <==> lookup_oid(r, field) == Some(id.bytes@),
{
}

/// Message privacy: whatever the caller's role, the message list holds
/// exactly the messages they sent or received, and a thread exactly the
/// messages between the caller and that partner, in either direction.
pub proof fn lemma_message_scope(me: Oid, partner: Oid, r: Seq<FieldV>)
    ensures
        filter_holds(my_messages_spec(me), r, message_leaf()) <==> (lookup_oid(r, "sender_id"@) == Some(me.bytes@)
            || lookup_oid(r, "recipient_id"@) == Some(me.bytes@)),
        filter_holds(thread_spec(me, partner), r, message_leaf()) <==> ((lookup_oid(r, "sender_id"@) == Some(
            me.bytes@,
        ) && lookup_oid(r, "recipient_id"@) == Some(partner.bytes@)) || (lookup_oid(r, "sender_id"@) == Some(
            partner.bytes@,
        ) && lookup_oid(r, "recipient_id"@) == Some(me.bytes@))),
{
    let leaf = message_leaf();
    let s_me = id_cond("sender_id"@, me);
    let r_me = id_cond("recipient_id"@, me);
    let s_p = id_cond("sender_id"@, partner);
    let r_p = id_cond("recipient_id"@, partner);
    lemma_id_cond("sender_id"@, me, r);
    lemma_id_cond("recipient_id"@, me, r);
    lemma_id_cond("sender_id"@, partner, r);
    lemma_id_cond("recipient_id"@, partner, r);
    assert(leaf(s_me, r) == eq_in_leaf(s_me, r));
    assert(leaf(r_me, r) == eq_in_leaf(r_me, r));
    assert(leaf(s_p, r) == eq_in_leaf(s_p, r));
    assert(leaf(r_p, r) == eq_in_leaf(r_p, r));
    let any = seq![s_me, r_me];
    if leaf(s_me, r) {
        assert(leaf(any[0], r));
    }
    if leaf(r_me, r) {
        assert(leaf(any[1], r));
    }
    let a = seq![s_me, r_p];
    let b = seq![s_p, r_me];
    assert(filter_holds(FilterV::Doc(a), r, leaf) == (leaf(a[0], r) && leaf(a[1], r))) by {
        if leaf(a[0], r) && leaf(a[1], r) {
            assert forall|i: int| 0 <= i < a.len() implies #[trigger] leaf(a[i], r) by {}
        }
    }
    assert(filter_holds(FilterV::Doc(b), r, leaf) == (leaf(b[0], r) && leaf(b[1], r))) by {
        if leaf(b[0], r) && leaf(b[1], r) {
            assert forall|i: int| 0 <= i < b.len() implies #[trigger] leaf(b[i], r) by {}
        }
    }
}

/// The messages a caller sees: those they sent or received, whatever their
/// role (an admin reads no one else's messages).
pub fn my_messages_filter(me: Oid) -> (f: Filter)
    ensures
        f@ == my_messages_spec(me),
{
    let mut cs: Vec<Cond> = Vec::new();
    cs.push(id_eq("sender_id", me));
    cs.push(id_eq("recipient_id", me));
    let f = Filter::AnyOf(cs);
    assert(f@->AnyOf_0 =~= seq![id_cond("sender_id"@, me), id_cond("recipient_id"@, me)]);
    f
}

/// The recipient of a message: a valid id other than the sender's own
/// (400 "invalid id", or "cannot message yourself").
pub fn message_recipient(me: Oid, input: &SendMessageInput) -> (r: Result<Oid, ApiError>)
    ensures
        hex_oid_bytes(input.recipient_id@) is None ==> (r matches Err(e) && e matches ApiError::BadRequest(m) && m@
            == "invalid id"@),
        hex_oid_bytes(input.recipient_id@) matches Some(b) ==> if b == me.bytes@ {
            r matches Err(e) && e matches ApiError::BadRequest(m) && m@ == "cannot message yourself"@
        } else {
            r matches Ok(o) && o.bytes@ == b
        },
{
    let recipient = match parse_oid(input.recipient_id.as_str()) {
        Ok(o) => o,
        Err(e) => return Err(e),
    };
    if recipient == me {
        return Err(bad_request("cannot message yourself"));
    }
    Ok(recipient)
}

/// The recipient must be a user: a 400 "recipient not found" otherwise.
pub fn require_recipient(exists: bool) -> (r: Result<(), ApiError>)
    ensures
        r is Ok <==> exists,
        r matches Err(e) ==> (e matches ApiError::BadRequest(m) && m@ == "recipient not found"@),
{
    if exists {
        Ok(())
    } else {
        Err(bad_request("recipient not found"))
    }
}

/// The message a request sends, unread, at `now`.
pub fn new_message(me: Oid, recipient: Oid, input: SendMessageInput, now: i64) -> (m: Message)
    ensures
        m.id is None,
        m.sender_id == me,
        m.recipient_id == recipient,
        m.ciphertext == input.ciphertext,
        m.iv == input.iv,
        m.read_at is None,
        m.created_at == now,
{
    Message {
        id: None,
        sender_id: me,
        recipient_id: recipient,
        ciphertext: input.ciphertext,
        iv: input.iv,
        read_at: None,
        created_at: now,
    }
}

/// The conversation between the caller and a partner: messages either way.
pub fn thread_filter(me: Oid, partner: Oid) -> (f: Filter)
    ensures
        f@ == thread_spec(me, partner),
{
    let mut a: Vec<Cond> = Vec::new();
    a.push(id_eq("sender_id", me));
    a.push(id_eq("recipient_id", partner));
    let mut b: Vec<Cond> = Vec::new();
    b.push(id_eq("sender_id", partner));
    b.push(id_eq("recipient_id", me));
    let fa = Filter::Doc(a);
    let fb = Filter::Doc(b);
    assert(fa@->Doc_0 =~= seq![id_cond("sender_id"@, me), id_cond("recipient_id"@, partner)]);
    assert(fb@->Doc_0 =~= seq![id_cond("sender_id"@, partner), id_cond("recipient_id"@, me)]);
    Filter::Either(Box::new(fa), Box::new(fb))
}

/// How many of a thread's latest messages to return: the page size asked
/// for within 1..=200, 100 when none is.
pub fn thread_limit(q: &ThreadQuery) -> (r: i64)
    ensures
        r == match q.page_size {
            Some(n) => if n < 1 { 1 } else if n > 200 { 200 } else { n as int },
            None => 100,
        },
{
    let n: u64 = match q.page_size {
        Some(n) => n,
        None => 100,
    };
    if n < 1 {
        1
    } else if n > 200 {
        200
    } else {
        n as i64
    }
}

/// The partner's unread messages to the caller (marked read when the
/// caller opens the thread).
pub fn unread_from_filter(me: Oid, partner: Oid) -> (f: Filter)
    ensures
        f@ == FilterV::Doc(seq![
            id_cond("sender_id"@, partner),
            id_cond("recipient_id"@, me),
            CondV { field: "read_at"@, test: TestV::Eq(ValueV::Null) },
        ]),
{
    let mut cs: Vec<Cond> = Vec::new();
    cs.push(id_eq("sender_id", partner));
    cs.push(id_eq("recipient_id", me));
    cs.push(Cond { field: "read_at".to_string(), test: Test::Eq(Value::Null) });
    let f = Filter::Doc(cs);
    assert(f@->Doc_0 =~= seq![
        id_cond("sender_id"@, partner),
        id_cond("recipient_id"@, me),
        CondV { field: "read_at"@, test: TestV::Eq(ValueV::Null) },
    ]);
    f
}

/// The other party of a message, seen from the caller.
pub open spec fn partner_of(me: Seq<u8>, m: Message) -> Seq<u8> {
    if m.sender_id.bytes@ == me {
        m.recipient_id.bytes@
    } else {
        m.sender_id.bytes@
    }
}

/// The message is to the caller and not read yet.
pub open spec fn unread_by(me: Seq<u8>, m: Message) -> bool {
    m.recipient_id.bytes@ == me && m.read_at is None
}

/// Unread messages to the caller from `partner` among the first `n`.
pub open spec fn unread_count_of(ms: Seq<Message>, me: Seq<u8>, partner: Seq<u8>, n: int) -> nat
    decreases n,
{
    if n <= 0 {
        0
    } else if partner_of(me, ms[n - 1]) == partner && unread_by(me, ms[n - 1]) {
        unread_count_of(ms, me, partner, n - 1) + 1
    } else {
        unread_count_of(ms, me, partner, n - 1)
    }
}

/// One thread: the partner, the position of its first message in the
/// list, and the unread count.
pub struct ThreadTally {
    pub partner: Oid,
    pub first: usize,
    pub unread: u32,
}

/// Some tally is for `p`.
pub open spec fn has_partner(ts: Seq<ThreadTally>, p: Seq<u8>) -> bool {
    exists|k: int| 0 <= k < ts.len() && (#[trigger] ts[k]).partner.bytes@ == p
}

/// The thread tallies are exact for the first `n` messages: each tally's
/// first message is the first one with its partner, tallies are in order
/// of first messages, every message's partner has a tally, and each
/// unread count is exact.
#[verifier::opaque]
pub open spec fn tallies_of(ms: Seq<Message>, me: Seq<u8>, n: int, ts: Seq<ThreadTally>) -> bool {
    &&& forall|k: int| 0 <= k < ts.len() ==> (#[trigger] ts[k]).first < n
    &&& forall|k: int| 0 <= k < ts.len() ==> (#[trigger] ts[k]).partner.bytes@ == partner_of(me, ms[ts[k].first as int])
    &&& forall|a: int, b: int| 0 <= a < b < ts.len() ==> (#[trigger] ts[a]).first < (#[trigger] ts[b]).first
    &&& forall|k: int, j: int| 0 <= k < ts.len() && 0 <= j < ts[k].first ==> partner_of(me, #[trigger] ms[j])
        != (#[trigger] ts[k]).partner.bytes@
    &&& forall|j: int| 0 <= j < n ==> has_partner(ts, partner_of(me, #[trigger] ms[j]))
    &&& forall|k: int| 0 <= k < ts.len() ==> (#[trigger] ts[k]).unread == unread_count_of(ms, me, ts[k].partner.bytes@, n)
}

/// The caller's threads, one per partner, in the order their first
/// message appears in `messages` (newest first when the messages are),
/// each with its unread count: messages from the partner to the caller not
/// yet read. The caller's own messages never count as unread.
pub fn thread_tallies(me: Oid, messages: &Vec<Message>) -> (r: Vec<ThreadTally>)
    requires
        messages@.len() <= u32::MAX,
    ensures
        tallies_of(messages@, me.bytes@, messages@.len() as int, r@),
        forall|a: int, b: int| 0 <= a < b < r@.len() ==> (#[trigger] r@[a]).partner.bytes@ != (#[trigger] r@[b]).partner.bytes@,
{
    let ghost mv = me.bytes@;
    let mut out: Vec<ThreadTally> = Vec::new();
    let mut i: usize = 0;
    proof {
        reveal(tallies_of);
    }
    while i < messages.len()
        invariant
            i <= messages@.len(),
            messages@.len() <= u32::MAX,
            mv == me.bytes@,
            tallies_of(messages@, mv, i as int, out@),
            forall|k: int| 0 <= k < out@.len() ==> (#[trigger] out@[k]).unread <= i,
        decreases messages.len() - i,
    {
        let m = &messages[i];
        let partner = if m.sender_id == me { m.recipient_id } else { m.sender_id };
        assert(partner.bytes@ == partner_of(mv, messages@[i as int]));
        let unread: u32 = if m.recipient_id == me && m.read_at.is_none() { 1 } else { 0 };
        assert(unread == if unread_by(mv, messages@[i as int]) { 1u32 } else { 0u32 });
        let mut k: usize = 0;
        while k < out.len() && out[k].partner != partner
            invariant
                k <= out@.len(),
                forall|q: int| 0 <= q < k ==> (#[trigger] out@[q]).partner.bytes@ != partner.bytes@,
            decreases out.len() - k,
        {
            k = k + 1;
        }
        let ghost before = out@;
        if k < out.len() {
            let t = out.remove(k);
            let nt = ThreadTally { partner: t.partner, first: t.first, unread: t.unread + unread };
            out.insert(k, nt);
            proof {
                assert(out@ =~= before.update(k as int, nt));
                lemma_tally_bump(messages@, mv, i as int, before, k as int, out@);
            }
        } else {
            let nt = ThreadTally { partner, first: i, unread };
            out.push(nt);
            proof {
                lemma_tally_new(messages@, mv, i as int, before, out@);
            }
        }
        i = i + 1;
    }
    proof {
        lemma_tallies_distinct(messages@, mv, messages@.len() as int, out@);
    }
    out
}

/// Partners of exact tallies are distinct.
proof fn lemma_tallies_distinct(ms: Seq<Message>, me: Seq<u8>, n: int, ts: Seq<ThreadTally>)
    requires
        tallies_of(ms, me, n, ts),
    ensures
        forall|a: int, b: int| 0 <= a < b < ts.len() ==> (#[trigger] ts[a]).partner.bytes@ != (#[trigger] ts[b]).partner.bytes@,
{
    reveal(tallies_of);
    assert forall|a: int, b: int| 0 <= a < b < ts.len() implies (#[trigger] ts[a]).partner.bytes@ != (
    #[trigger] ts[b]).partner.bytes@ by {
        let j = ts[a].first as int;
        assert(partner_of(me, ms[j]) == ts[a].partner.bytes@);
    }
}

/// Adding message `i` to a thread that already has it keeps the tallies
/// exact.
proof fn lemma_tally_bump(ms: Seq<Message>, me: Seq<u8>, i: int, before: Seq<ThreadTally>, k: int, after: Seq<ThreadTally>)
    requires
        0 <= i < ms.len(),
        tallies_of(ms, me, i, before),
        0 <= k < before.len(),
        before[k].partner.bytes@ == partner_of(me, ms[i]),
        after == before.update(
            k,
            ThreadTally {
                partner: before[k].partner,
                first: before[k].first,
                unread: (before[k].unread + if unread_by(me, ms[i]) { 1int } else { 0int }) as u32,
            },
        ),
        before[k].unread + 1 <= u32::MAX,
    ensures
        tallies_of(ms, me, i + 1, after),
{
    reveal(tallies_of);
    lemma_tallies_distinct(ms, me, i, before);
    assert forall|q: int| 0 <= q < after.len() implies (#[trigger] after[q]).unread == unread_count_of(
        ms,
        me,
        after[q].partner.bytes@,
        i + 1,
    ) by {
        if q != k {
            assert(after[q] == before[q]);
        }
    }
    assert forall|j: int| 0 <= j < i + 1 implies has_partner(after, partner_of(me, #[trigger] ms[j])) by {
        if j == i {
            assert(after[k].partner.bytes@ == partner_of(me, ms[j]));
        } else {
            assert(has_partner(before, partner_of(me, ms[j])));
            let q = choose|q: int| 0 <= q < before.len() && (#[trigger] before[q]).partner.bytes@ == partner_of(me, ms[j]);
            assert(after[q].partner.bytes@ == before[q].partner.bytes@);
        }
    }
    assert forall|kk: int, j: int| 0 <= kk < after.len() && 0 <= j < after[kk].first implies partner_of(
        me,
        #[trigger] ms[j],
    ) != (#[trigger] after[kk]).partner.bytes@ by {
        assert(after[kk].partner == before[kk].partner && after[kk].first == before[kk].first);
    }
    assert forall|a: int, b: int| 0 <= a < b < after.len() implies (#[trigger] after[a]).first < (#[trigger] after[b]).first by {
        assert(after[a].first == before[a].first && after[b].first == before[b].first);
    }
}

/// Message `i` opening a new thread keeps the tallies exact.
proof fn lemma_tally_new(ms: Seq<Message>, me: Seq<u8>, i: int, before: Seq<ThreadTally>, after: Seq<ThreadTally>)
    requires
        0 <= i < ms.len(),
        tallies_of(ms, me, i, before),
        after.len() == before.len() + 1,
        forall|q: int| 0 <= q < before.len() ==> after[q] == before[q],
        forall|q: int| 0 <= q < before.len() ==> (#[trigger] before[q]).partner.bytes@ != partner_of(me, ms[i]),
        after[before.len() as int].partner.bytes@ == partner_of(me, ms[i]),
        after[before.len() as int].first == i,
        after[before.len() as int].unread == if unread_by(me, ms[i]) { 1int } else { 0int },
    ensures
        tallies_of(ms, me, i + 1, after),
{
    reveal(tallies_of);
    let p = partner_of(me, ms[i]);
    assert forall|j: int| 0 <= j < i implies partner_of(me, #[trigger] ms[j]) != p by {
        assert(has_partner(before, partner_of(me, ms[j])));
        let q2 = choose|q2: int| 0 <= q2 < before.len() && (#[trigger] before[q2]).partner.bytes@ == partner_of(me, ms[j]);
    }
    lemma_unread_zero(ms, me, p, i);
    assert forall|q: int| 0 <= q < after.len() implies (#[trigger] after[q]).unread == unread_count_of(
        ms,
        me,
        after[q].partner.bytes@,
        i + 1,
    ) by {
        if q < before.len() {
            assert(after[q] == before[q]);
        }
    }
    assert forall|kk: int, j: int| 0 <= kk < after.len() && 0 <= j < after[kk].first implies partner_of(
        me,
        #[trigger] ms[j],
    ) != (#[trigger] after[kk]).partner.bytes@ by {
        if kk < before.len() {
            assert(after[kk] == before[kk]);
        }
    }
    assert forall|j: int| 0 <= j < i + 1 implies has_partner(after, partner_of(me, #[trigger] ms[j])) by {
        if j == i {
            assert(after[before.len() as int].partner.bytes@ == partner_of(me, ms[j]));
        } else {
            assert(has_partner(before, partner_of(me, ms[j])));
            let q = choose|q: int| 0 <= q < before.len() && (#[trigger] before[q]).partner.bytes@ == partner_of(me, ms[j]);
            assert(after[q] == before[q]);
        }
    }
    assert forall|a: int, b: int| 0 <= a < b < after.len() implies (#[trigger] after[a]).first < (#[trigger] after[b]).first by {
        if b < before.len() {
            assert(after[a] == before[a] && after[b] == before[b]);
        } else {
            assert(after[a] == before[a]);
        }
    }
    assert forall|q: int| 0 <= q < after.len() implies (#[trigger] after[q]).partner.bytes@ == partner_of(
        me,
        ms[after[q].first as int],
    ) by {
        if q < before.len() {
            assert(after[q] == before[q]);
        }
    }
}

/// No unread messages from a partner who does not occur among the first `n`.
proof fn lemma_unread_zero(ms: Seq<Message>, me: Seq<u8>, partner: Seq<u8>, n: int)
    requires
        0 <= n <= ms.len(),
        forall|j: int| 0 <= j < n ==> partner_of(me, #[trigger] ms[j]) != partner,
    ensures
        unread_count_of(ms, me, partner, n) == 0,
    decreases n,
{
    if n > 0 {
        lemma_unread_zero(ms, me, partner, n - 1);
    }
}

/// The name a thread shows: the partner's, or "Unknown" for a partner
/// without an account.
pub fn partner_name(name: Option<String>) -> (r: String)
    ensures
        r@ == match name {
            Some(n) => n@,
            None => "Unknown"@,
        },
{
    match name {
        Some(n) => n,
        None => "Unknown".to_string(),
    }
}

impl MessageResponse {
    /// The API form of a message: ids as hex (the id empty when absent).
    pub fn from_message(m: Message) -> (r: MessageResponse)
        ensures
            r.id@ == opt_hex(m.id),
            r.sender_id@ == hex_text(m.sender_id.bytes@),
            r.recipient_id@ == hex_text(m.recipient_id.bytes@),
            r.ciphertext == m.ciphertext,
            r.iv == m.iv,
            r.read_at == m.read_at,
            r.created_at == m.created_at,
    {
        MessageResponse {
            id: opt_id_hex(&m.id),
            sender_id: m.sender_id.to_hex(),
            recipient_id: m.recipient_id.to_hex(),
            ciphertext: m.ciphertext,
            iv: m.iv,
            read_at: m.read_at,
            created_at: m.created_at,
        }
    }
}

} // verus!
