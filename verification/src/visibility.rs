//! Row-level visibility: which policies, renewals and other owned records a
//! caller may see, as a filter on the records' `assigned_to` owner.
use vstd::prelude::*;
use crate::auth::{AuthUser, Role};
use crate::filter::{eq_in_leaf, filter_holds, is_empty_filter, Cond, CondV, Filter, FilterV, Test, TestV};
use crate::oid::Oid;
use crate::value::{lookup_value, seq_contains_value, value_eq, values_view, FieldV, Value, ValueV};

verus! {

/// The owner field that scopes a record.
pub open spec fn owner_field() -> Seq<char> {
    "assigned_to"@
}

/// The visibility filter on views: nothing for an admin, the caller as
/// owner for an agent, and for a manager the members of the team they
/// manage (none when they manage no team) plus themselves.
pub open spec fn visibility_spec(role: Role, user: Seq<u8>, team: Option<Seq<Seq<u8>>>) -> FilterV {
    match role {
        Role::Admin => FilterV::Doc(seq![]),
        Role::Agent => FilterV::Doc(
            seq![CondV { field: owner_field(), test: TestV::Eq(ValueV::ObjectId(user)) }],
        ),
        Role::Manager => FilterV::Doc(
            seq![
                CondV {
                    field: owner_field(),
                    test: TestV::In(
                        match team {
                            Some(ms) => ms,
                            None => seq![],
                        }.push(user).map_values(|b: Seq<u8>| ValueV::ObjectId(b)),
                    ),
                },
            ],
        ),
    }
}

/// The member ids of an optional team, as byte sequences.
pub open spec fn team_view(team_members: Option<Vec<Oid>>) -> Option<Seq<Seq<u8>>> {
    match team_members {
        Some(ms) => Some(ms@.map_values(|o: Oid| o.bytes@)),
        None => None,
    }
}

/// Whether a manager's team lookup is needed to scope this caller.
pub fn needs_team(auth: &AuthUser) -> (r: bool)
    ensures
        r == (auth.role == Role::Manager),
{
    auth.role == Role::Manager
}

/// The filter fragment that scopes an owned-record query to what `auth` may
/// see. `team_members` are the members of the team `auth` manages (the
/// team found by `manager_id`), when there is one; only a manager's filter
/// reads it. Merge the result into every list and single-record filter with
/// `combine_filters`, so an out-of-scope record is simply not found.
pub fn visibility_filter(auth: &AuthUser, team_members: &Option<Vec<Oid>>) -> (f: Filter)
    ensures
        f@ == visibility_spec(
            auth.role,
            auth.user_id.bytes@,
            team_view(*team_members),
        ),
{
    match auth.role {
        Role::Admin => {
            let f = Filter::all();
            assert(f@->Doc_0 =~= seq![]);
            f
        },
        Role::Agent => {
            let c = Cond { field: "assigned_to".to_string(), test: Test::Eq(Value::ObjectId(auth.user_id)) };
            let f = Filter::single(c);
            proof {
                vstd::string::to_string_from_display_ensures_for_str("assigned_to", c.field);
                assert(f@ matches FilterV::Doc(cs) && cs =~= seq![CondV { field: owner_field(), test: TestV::Eq(ValueV::ObjectId(auth.user_id.bytes@)) }]);
            }
            f
        },
        Role::Manager => {
            let ghost members: Seq<Seq<u8>> = match team_view(*team_members) {
                Some(ms) => ms,
                None => seq![],
            };
            let mut vals: Vec<Value> = Vec::new();
            match team_members {
                Some(ms) => {
                    let mut i: usize = 0;
                    while i < ms.len()
                        invariant
                            i <= ms.len(),
                            members == ms@.map_values(|o: Oid| o.bytes@),
                            vals@.len() == i,
                            forall|k: int| 0 <= k < i ==> (#[trigger] vals@[k])@ == ValueV::ObjectId(members[k]),
                        decreases ms.len() - i,
                    {
                        vals.push(Value::ObjectId(ms[i]));
                        i = i + 1;
                    }
                },
                None => {},
            }
            vals.push(Value::ObjectId(auth.user_id));
            let ghost want = members.push(auth.user_id.bytes@).map_values(|b: Seq<u8>| ValueV::ObjectId(b));
            proof {
                crate::value::lemma_values_view(vals@);
                assert(values_view(vals@) =~= want);
            }
            let c = Cond { field: "assigned_to".to_string(), test: Test::In(vals) };
            let f = Filter::single(c);
            proof {
                vstd::string::to_string_from_display_ensures_for_str("assigned_to", c.field);
                assert(f@ matches FilterV::Doc(cs) && cs =~= seq![CondV { field: owner_field(), test: TestV::In(want) }]);
            }
            f
        },
    }
}

/// The record's owner id, when it has one.
pub open spec fn owner_of(r: Seq<FieldV>) -> Option<Seq<u8>> {
    match lookup_value(r, owner_field()) {
        Some(ValueV::ObjectId(b)) => Some(b),
        _ => None,
    }
}

/// Visibility by role: an admin sees every record, an agent exactly the
/// records assigned to them, and a manager exactly the records assigned to
/// themselves or to a member of the team they manage (reading equality and
/// membership conditions on the owner field as `eq_in_leaf` does).
pub proof fn lemma_visibility_by_role(role: Role, user: Seq<u8>, team: Option<Seq<Seq<u8>>>, r: Seq<FieldV>)
    ensures
        role == Role::Admin ==> filter_holds(visibility_spec(role, user, team), r, |c: CondV, x: Seq<FieldV>| eq_in_leaf(c, x)),
        role == Role::Agent ==> (filter_holds(visibility_spec(role, user, team), r, |c: CondV, x: Seq<FieldV>| eq_in_leaf(c, x))
            <==> owner_of(r) == Some(user)),
        role == Role::Manager ==> (filter_holds(visibility_spec(role, user, team), r, |c: CondV, x: Seq<FieldV>| eq_in_leaf(c, x))
            <==> (owner_of(r) matches Some(o) && (o == user || (team matches Some(ms) && ms.contains(o))))),
{
    let leaf = |c: CondV, x: Seq<FieldV>| eq_in_leaf(c, x);
    let f = visibility_spec(role, user, team);
    match role {
        Role::Admin => {},
        Role::Agent => {
            let c = CondV { field: owner_field(), test: TestV::Eq(ValueV::ObjectId(user)) };
            assert(f == FilterV::Doc(seq![c]));
            crate::filter::lemma_single_doc(c, r, leaf);
            match lookup_value(r, owner_field()) {
                Some(x) => {
                    if x is ObjectId {
                    } else {
                    }
                },
                None => {},
            }
        },
        Role::Manager => {
            let ms = match team {
                Some(ms) => ms,
                None => seq![],
            };
            let all = ms.push(user);
            let vs = all.map_values(|b: Seq<u8>| ValueV::ObjectId(b));
            let c = CondV { field: owner_field(), test: TestV::In(vs) };
            assert(f == FilterV::Doc(seq![c]));
            crate::filter::lemma_single_doc(c, r, leaf);
            match lookup_value(r, owner_field()) {
                Some(x) => {
                    if seq_contains_value(vs, x) {
                        let i = choose|i: int| 0 <= i < vs.len() && value_eq(vs[i], x);
                        assert(vs[i] == ValueV::ObjectId(all[i]));
                        if i < ms.len() {
                            assert(ms[i] == all[i]);
                        }
                    }
                    if owner_of(r) is Some && (owner_of(r)->0 == user || (team is Some && team->0.contains(owner_of(r)->0))) {
                        let o = owner_of(r)->0;
                        if o == user {
                            assert(value_eq(vs[ms.len() as int], x));
                        } else {
                            let j = choose|j: int| 0 <= j < ms.len() && ms[j] == o;
                            assert(all[j] == o);
                            assert(value_eq(vs[j], x));
                        }
                    }
                },
                None => {},
            }
        },
    }
}

} // verus!
