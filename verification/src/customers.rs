//! Customers (a shared address book, not scoped by owner) and the header
//! search across customers, policies and renewals.
use vstd::prelude::*;
use crate::dates::{format_day_month_year, text_day_month_year};
use crate::filter::{combine_filters, combine_spec, filter_holds, regex_leaf, text_matches, Cond, CondV, Filter, FilterV, Test, TestV};
use crate::oid::{hex_text, Oid};
use crate::policies::{fields_view, opt_text_field, push_field, push_opt_text, set_field};
use crate::reminders::{opt_hex, opt_id_hex};
use crate::text::{chars_to_string, push_str, str_chars, trim, trim_spec};
use crate::value::{Field, FieldV, Value, ValueV};

verus! {

broadcast use vstd::string::group_string_axioms;

/// A customer.
pub struct Customer {
    pub id: Option<Oid>,
    pub name: String,
    pub phone: Option<String>,
    pub email: Option<String>,
    pub address: Option<String>,
    pub notes: Option<String>,
    /// Staff-applied labels (VIP, High Value, ...).
    pub tags: Vec<String>,
    pub created_by: Oid,
    pub created_at: i64,
    pub updated_at: i64,
}

/// A request to add a customer.
pub struct CreateCustomerInput {
    pub name: String,
    pub phone: Option<String>,
    pub email: Option<String>,
    pub address: Option<String>,
    pub notes: Option<String>,
    pub tags: Vec<String>,
}

/// A partial edit of a customer.
pub struct UpdateCustomerInput {
    pub name: Option<String>,
    pub phone: Option<String>,
    pub email: Option<String>,
    pub address: Option<String>,
    pub notes: Option<String>,
    pub tags: Option<Vec<String>>,
}

/// Filter of the customer list: free text matched against name, phone and
/// email.
pub struct ListCustomersQuery {
    pub q: Option<String>,
}

/// A customer as the API returns it.
pub struct CustomerResponse {
    pub id: String,
    pub name: String,
    pub phone: Option<String>,
    pub email: Option<String>,
    pub address: Option<String>,
    pub notes: Option<String>,
    pub tags: Vec<String>,
    pub created_by: String,
    pub created_at: i64,
    pub updated_at: i64,
}

/// The header search's text.
pub struct SearchQuery {
    pub q: String,
}

/// One search hit: what it is, its id, how to show it, and the customer
/// page it opens.
pub struct SearchResult {
    pub object: &'static str,
    pub id: String,
    pub label: String,
    pub sublabel: String,
    pub customer_id: String,
}

/// Hits per kind of record.
pub const RESULTS_PER_OBJECT: i64 = 5;

/// `{field: {"$regex": pattern, "$options": "i"}}`.
pub open spec fn regex_cond(field: Seq<char>, pattern: Seq<char>) -> CondV {
    CondV { field, test: TestV::Regex { pattern, negate: false } }
}

/// A case-insensitive regex condition.
fn regex(field: &str, pattern: &str) -> (c: Cond)
    ensures
        c@ == regex_cond(field@, pattern@),
{
    Cond { field: field.to_string(), test: Test::Regex { pattern: pattern.to_string(), negate: false } }
}

/// Name, phone or email matching the pattern.
pub open spec fn contact_match(pattern: Seq<char>) -> FilterV {
    FilterV::AnyOf(seq![regex_cond("name"@, pattern), regex_cond("phone"@, pattern), regex_cond("email"@, pattern)])
}

/// Name, phone or email matching the pattern.
pub fn contact_match_filter(pattern: &str) -> (f: Filter)
    ensures
        f@ == contact_match(pattern@),
{
    let mut cs: Vec<Cond> = Vec::new();
    cs.push(regex("name", pattern));
    cs.push(regex("phone", pattern));
    cs.push(regex("email", pattern));
    let f = Filter::AnyOf(cs);
    assert(f@->AnyOf_0 =~= seq![regex_cond("name"@, pattern@), regex_cond("phone"@, pattern@), regex_cond("email"@, pattern@)]);
    f
}

/// The customer search finds a customer exactly when the search text, as a
/// pattern, matches its name, its phone or its email, whatever the pattern
/// language.
pub proof fn lemma_contact_search(pattern: Seq<char>, r: Seq<FieldV>, matches: spec_fn(Seq<char>, Seq<char>) -> bool)
    ensures
        filter_holds(contact_match(pattern), r, |c: CondV, x: Seq<FieldV>| regex_leaf(c, x, matches)) <==> (
        text_matches(r, "name"@, pattern, matches) || text_matches(r, "phone"@, pattern, matches) || text_matches(
            r,
            "email"@,
            pattern,
            matches,
        )),
{
    let leaf = |c: CondV, x: Seq<FieldV>| regex_leaf(c, x, matches);
    let cs = contact_match(pattern)->AnyOf_0;
    assert(leaf(cs[0], r) == text_matches(r, "name"@, pattern, matches));
    assert(leaf(cs[1], r) == text_matches(r, "phone"@, pattern, matches));
    assert(leaf(cs[2], r) == text_matches(r, "email"@, pattern, matches));
}

/// Policy number or insurer matching the pattern.
pub open spec fn policy_search(pattern: Seq<char>) -> FilterV {
    FilterV::AnyOf(seq![regex_cond("policy_number"@, pattern), regex_cond("insurer_name"@, pattern)])
}

/// Customer name (on the renewal) matching the pattern.
pub open spec fn renewal_search(pattern: Seq<char>) -> FilterV {
    FilterV::Doc(seq![regex_cond("customer_name"@, pattern)])
}

/// The global search finds a policy exactly when the text matches its
/// policy number or its insurer, and a renewal exactly when it matches the
/// renewal's customer name, whatever the pattern language.
pub proof fn lemma_record_search(pattern: Seq<char>, r: Seq<FieldV>, matches: spec_fn(Seq<char>, Seq<char>) -> bool)
    ensures
        filter_holds(policy_search(pattern), r, |c: CondV, x: Seq<FieldV>| regex_leaf(c, x, matches)) <==> (
        text_matches(r, "policy_number"@, pattern, matches) || text_matches(r, "insurer_name"@, pattern, matches)),
        filter_holds(renewal_search(pattern), r, |c: CondV, x: Seq<FieldV>| regex_leaf(c, x, matches))
            <==> text_matches(r, "customer_name"@, pattern, matches),
{
    let leaf = |c: CondV, x: Seq<FieldV>| regex_leaf(c, x, matches);
    let ps = policy_search(pattern)->AnyOf_0;
    assert(leaf(ps[0], r) == text_matches(r, "policy_number"@, pattern, matches));
    assert(leaf(ps[1], r) == text_matches(r, "insurer_name"@, pattern, matches));
    let rs = renewal_search(pattern)->Doc_0;
    assert(leaf(rs[0], r) == text_matches(r, "customer_name"@, pattern, matches));
    if leaf(rs[0], r) {
        assert forall|i: int| 0 <= i < rs.len() implies #[trigger] leaf(rs[i], r) by {}
    }
}

/// The customer list's filter: the text as given, against name, phone and
/// email, unless it is absent or blank (then every customer).
pub fn customer_list_filter(q: &ListCustomersQuery) -> (f: Filter)
    ensures
        f@ == match q.q {
            Some(t) => if trim_spec(t@).len() > 0 {
                contact_match(t@)
            } else {
                FilterV::Doc(Seq::empty())
            },
            None => FilterV::Doc(Seq::empty()),
        },
{
    match &q.q {
        Some(t) => {
            let trimmed = trim(t.as_str());
            if str_chars(trimmed.as_str()).len() > 0 {
                contact_match_filter(t.as_str())
            } else {
                let f = Filter::all();
                assert(f@->Doc_0 =~= Seq::<CondV>::empty());
                f
            }
        },
        None => {
            let f = Filter::all();
            assert(f@->Doc_0 =~= Seq::<CondV>::empty());
            f
        },
    }
}

/// The customer a request adds, by the caller, created and updated `now`.
pub fn new_customer(input: CreateCustomerInput, caller: Oid, now: i64) -> (c: Customer)
    ensures
        c.id is None,
        c.name == input.name,
        c.phone == input.phone,
        c.email == input.email,
        c.address == input.address,
        c.notes == input.notes,
        c.tags == input.tags,
        c.created_by == caller,
        c.created_at == now,
        c.updated_at == now,
{
    Customer {
        id: None,
        name: input.name,
        phone: input.phone,
        email: input.email,
        address: input.address,
        notes: input.notes,
        tags: input.tags,
        created_by: caller,
        created_at: now,
        updated_at: now,
    }
}

/// What a customer edit sets, besides the tags: `updated_at`, then each
/// given field.
pub open spec fn customer_set_spec(input: UpdateCustomerInput, now: i64) -> Seq<FieldV> {
    seq![set_field("updated_at"@, ValueV::DateTime(now))] + opt_text_field("name"@, input.name) + opt_text_field(
        "phone"@,
        input.phone,
    ) + opt_text_field("email"@, input.email) + opt_text_field("address"@, input.address) + opt_text_field(
        "notes"@,
        input.notes,
    )
}

/// A customer edit: the scalar fields it sets, and the tag list that
/// replaces the old one (set last) when given.
pub struct CustomerUpdate {
    pub fields: Vec<Field>,
    pub tags: Option<Vec<String>>,
}

/// The `$set` of a customer edit.
pub fn customer_update(input: UpdateCustomerInput, now: i64) -> (u: CustomerUpdate)
    ensures
        fields_view(u.fields@) == customer_set_spec(input, now),
        u.tags == input.tags,
{
    let mut fs: Vec<Field> = Vec::new();
    push_field(&mut fs, "updated_at", Value::DateTime(now));
    push_opt_text(&mut fs, "name", &input.name);
    push_opt_text(&mut fs, "phone", &input.phone);
    push_opt_text(&mut fs, "email", &input.email);
    push_opt_text(&mut fs, "address", &input.address);
    push_opt_text(&mut fs, "notes", &input.notes);
    assert(fields_view(fs@) =~= customer_set_spec(input, now));
    CustomerUpdate { fields: fs, tags: input.tags }
}

/// Activity-feed line for a new customer: `added a new customer record
/// for <name>`.
pub fn customer_added_activity(name: &str) -> (r: String)
    ensures
        r@ == "added a new customer record for "@ + name@,
{
    let mut out = str_chars("added a new customer record for ");
    push_str(&mut out, name);
    chars_to_string(&out)
}

impl CustomerResponse {
    /// The API form of a customer: ids as hex (the id empty when absent).
    pub fn from_customer(c: Customer) -> (r: CustomerResponse)
        ensures
            r.id@ == opt_hex(c.id),
            r.name == c.name,
            r.phone == c.phone,
            r.email == c.email,
            r.address == c.address,
            r.notes == c.notes,
            r.tags == c.tags,
            r.created_by@ == hex_text(c.created_by.bytes@),
            r.created_at == c.created_at,
            r.updated_at == c.updated_at,
    {
        CustomerResponse {
            id: opt_id_hex(&c.id),
            name: c.name,
            phone: c.phone,
            email: c.email,
            address: c.address,
            notes: c.notes,
            tags: c.tags,
            created_by: c.created_by.to_hex(),
            created_at: c.created_at,
            updated_at: c.updated_at,
        }
    }
}

/// The search text: the query without surrounding whitespace, or nothing
/// to search for when that is empty (the search then finds nothing).
pub fn search_term(q: &SearchQuery) -> (r: Option<String>)
    ensures
        match r {
            Some(t) => t@ == trim_spec(q.q@) && t@.len() > 0,
            None => trim_spec(q.q@).len() == 0,
        },
{
    let t = trim(q.q.as_str());
    if str_chars(t.as_str()).len() == 0 {
        None
    } else {
        Some(t)
    }
}

/// The three searches: customers by name, phone or email (unscoped);
/// policies by number or insurer, and renewals by customer name, both
/// within the caller's scope.
pub struct SearchFilters {
    pub customers: Filter,
    pub policies: Filter,
    pub renewals: Filter,
}

/// The filters of a search for `term`.
pub fn search_filters(term: &str, scope: Filter) -> (r: SearchFilters)
    ensures
        r.customers@ == contact_match(term@),
        r.policies@ == combine_spec(policy_search(term@), scope@),
        r.renewals@ == combine_spec(renewal_search(term@), scope@),
{
    let customers = contact_match_filter(term);
    let mut pc: Vec<Cond> = Vec::new();
    pc.push(regex("policy_number", term));
    pc.push(regex("insurer_name", term));
    let pf = Filter::AnyOf(pc);
    assert(pf@->AnyOf_0 =~= seq![regex_cond("policy_number"@, term@), regex_cond("insurer_name"@, term@)]);
    assert(pf@ == policy_search(term@));
    let rf = Filter::single(regex("customer_name", term));
    let scope2 = copy_filter(&scope);
    SearchFilters {
        customers,
        policies: combine_filters(pf, scope),
        renewals: combine_filters(rf, scope2),
    }
}

/// A copy of a condition.
fn copy_cond(c: &Cond) -> (r: Cond)
    ensures
        r@ == c@,
{
    let test = match &c.test {
        Test::Eq(v) => Test::Eq(v.duplicate()),
        Test::In(vs) => {
            let mut ws: Vec<Value> = Vec::new();
            let mut i: usize = 0;
            while i < vs.len()
                invariant
                    i <= vs@.len(),
                    ws@.len() == i,
                    forall|k: int| 0 <= k < i ==> (#[trigger] ws@[k])@ == vs@[k]@,
                decreases vs.len() - i,
            {
                ws.push(vs[i].duplicate());
                i = i + 1;
            }
            proof {
                crate::value::lemma_values_view(ws@);
                crate::value::lemma_values_view(vs@);
                assert(crate::value::values_view(ws@) =~= crate::value::values_view(vs@));
            }
            Test::In(ws)
        },
        Test::Regex { pattern, negate } => Test::Regex { pattern: pattern.clone(), negate: *negate },
        Test::Range { gte, lt, lte } => Test::Range {
            gte: match gte {
                Some(v) => Some(v.duplicate()),
                None => None,
            },
            lt: match lt {
                Some(v) => Some(v.duplicate()),
                None => None,
            },
            lte: match lte {
                Some(v) => Some(v.duplicate()),
                None => None,
            },
        },
    };
    Cond { field: c.field.clone(), test }
}

/// A copy of a filter.
pub fn copy_filter(f: &Filter) -> (r: Filter)
    ensures
        r@ == f@,
    decreases f,
{
    match f {
        Filter::Doc(cs) => {
            let mut v: Vec<Cond> = Vec::new();
            let mut i: usize = 0;
            while i < cs.len()
                invariant
                    i <= cs@.len(),
                    v@.len() == i,
                    forall|k: int| 0 <= k < i ==> (#[trigger] v@[k])@ == cs@[k]@,
                decreases cs.len() - i,
            {
                v.push(copy_cond(&cs[i]));
                i = i + 1;
            }
            let r = Filter::Doc(v);
            assert(r@->Doc_0 =~= f@->Doc_0);
            r
        },
        Filter::AnyOf(cs) => {
            let mut v: Vec<Cond> = Vec::new();
            let mut i: usize = 0;
            while i < cs.len()
                invariant
                    i <= cs@.len(),
                    v@.len() == i,
                    forall|k: int| 0 <= k < i ==> (#[trigger] v@[k])@ == cs@[k]@,
                decreases cs.len() - i,
            {
                v.push(copy_cond(&cs[i]));
                i = i + 1;
            }
            let r = Filter::AnyOf(v);
            assert(r@->AnyOf_0 =~= f@->AnyOf_0);
            r
        },
        Filter::And(a, b) => {
            let ca = copy_filter(a);
            let cb = copy_filter(b);
            Filter::And(Box::new(ca), Box::new(cb))
        },
        Filter::Either(a, b) => {
            let ca = copy_filter(a);
            let cb = copy_filter(b);
            Filter::Either(Box::new(ca), Box::new(cb))
        },
    }
}

/// A customer hit: labelled by name, with the phone (else the email, else
/// nothing) beneath; it opens its own page.
pub fn customer_result(c: &Customer) -> (r: SearchResult)
    ensures
        r.object@ == "customer"@,
        r.id@ == opt_hex(c.id),
        r.customer_id@ == opt_hex(c.id),
        r.label@ == c.name@,
        r.sublabel@ == match c.phone {
            Some(p) => p@,
            None => match c.email {
                Some(e) => e@,
                None => Seq::<char>::empty(),
            },
        },
{
    let sublabel = match &c.phone {
        Some(p) => p.clone(),
        None => match &c.email {
            Some(e) => e.clone(),
            None => String::new(),
        },
    };
    SearchResult {
        object: "customer",
        id: opt_id_hex(&c.id),
        customer_id: opt_id_hex(&c.id),
        label: c.name.clone(),
        sublabel,
    }
}

/// A policy hit: labelled by policy number, with `<insurer> — <type>`
/// beneath; it opens its customer's page.
pub fn policy_result(id: &Option<Oid>, customer_id: Oid, policy_number: &str, insurer_name: &str, policy_type: &str) -> (r: SearchResult)
    ensures
        r.object@ == "policy"@,
        r.id@ == opt_hex(*id),
        r.customer_id@ == hex_text(customer_id.bytes@),
        r.label@ == policy_number@,
        r.sublabel@ == insurer_name@ + " — "@ + policy_type@,
{
    let mut sub = str_chars(insurer_name);
    push_str(&mut sub, " — ");
    push_str(&mut sub, policy_type);
    SearchResult {
        object: "policy",
        id: opt_id_hex(id),
        customer_id: customer_id.to_hex(),
        label: policy_number.to_string(),
        sublabel: chars_to_string(&sub),
    }
}

/// A renewal hit: labelled `<customer> — <type>`, with `<insurer> due <day
/// Mon year>` beneath; it opens its customer's page.
pub fn renewal_result(
    id: &Option<Oid>,
    customer_id: Oid,
    customer_name: &str,
    policy_type: &str,
    insurer_name: &str,
    due_date: i64,
) -> (r: SearchResult)
    ensures
        r.object@ == "renewal"@,
        r.id@ == opt_hex(*id),
        r.customer_id@ == hex_text(customer_id.bytes@),
        r.label@ == customer_name@ + " — "@ + policy_type@,
        r.sublabel@ == insurer_name@ + " due "@ + text_day_month_year(due_date),
{
    let mut label = str_chars(customer_name);
    push_str(&mut label, " — ");
    push_str(&mut label, policy_type);
    let mut sub = str_chars(insurer_name);
    push_str(&mut sub, " due ");
    let day = format_day_month_year(due_date);
    push_str(&mut sub, day.as_str());
    SearchResult {
        object: "renewal",
        id: opt_id_hex(id),
        customer_id: customer_id.to_hex(),
        label: chars_to_string(&label),
        sublabel: chars_to_string(&sub),
    }
}

} // verus!
