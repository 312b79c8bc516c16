//! Who is asking: staff roles, the authenticated caller, and the checks the
//! handlers make on them.
use vstd::prelude::*;
use crate::error::ApiError;
use crate::oid::Oid;
use crate::text::{chars_to_string, str_chars};

verus! {

/// Staff role. Admin sees the whole book of business, a manager their
/// team's, an agent only their own.
#[derive(Clone, Copy, Debug, PartialEq, Eq, Structural)]
pub enum Role {
    Admin,
    Manager,
    Agent,
}

/// The authenticated caller of a request.
#[derive(Clone, Copy, Debug)]
pub struct AuthUser {
    pub user_id: Oid,
    pub role: Role,
}

/// Only admins pass; managers and agents are refused with 403.
pub fn require_admin(user: &AuthUser) -> (r: Result<(), ApiError>)
    ensures
        r is Ok <==> user.role == Role::Admin,
        r matches Err(e) ==> e is Forbidden,
{
    match user.role {
        Role::Admin => Ok(()),
        Role::Manager | Role::Agent => Err(ApiError::Forbidden),
    }
}

/// The token of an `Authorization` header of the form `Bearer <token>`.
pub fn bearer_token(header: &str) -> (r: Option<String>)
    ensures
        r is Some <==> crate::text::has_prefix(header@, "Bearer "@),
        r matches Some(t) ==> t@ == header@.subrange(7, header@.len() as int),
{
    let cs = str_chars(header);
    let p = str_chars("Bearer ");
    proof {
        reveal_strlit("Bearer ");
    }
    if cs.len() >= 7 && crate::text::matches_at(&cs, &p, 0) {
        let mut rest: Vec<char> = Vec::new();
        let mut i: usize = 7;
        while i < cs.len()
            invariant
                7 <= i <= cs.len(),
                rest@ == cs@.subrange(7, i as int),
            decreases cs.len() - i,
        {
            rest.push(cs[i]);
            i = i + 1;
            assert(cs@.subrange(7, i as int) =~= cs@.subrange(7, i - 1).push(cs@[i - 1]));
        }
        assert(cs@.subrange(0, 7) =~= p@);
        Some(chars_to_string(&rest))
    } else {
        assert(!(cs@.len() >= 7 && cs@.subrange(0, 7) == p@) ==> !crate::text::has_prefix(header@, "Bearer "@));
        None
    }
}

/// Role a newly registered user gets. The very first user bootstraps as
/// admin with no token; after that only an admin may register users, who
/// get the role asked for, or agent.
pub fn registration_role(is_first_user: bool, caller: Option<AuthUser>, requested: Option<Role>) -> (r: Result<Role, ApiError>)
    ensures
        is_first_user ==> r == Ok::<Role, ApiError>(Role::Admin),
        !is_first_user && caller is None ==> (r matches Err(e) && e is Unauthorized),
        !is_first_user && caller is Some && caller->0.role != Role::Admin ==> (r matches Err(e) && e is Forbidden),
        !is_first_user && caller is Some && caller->0.role == Role::Admin ==> r == Ok::<Role, ApiError>(
            match requested {
                Some(x) => x,
                None => Role::Agent,
            },
        ),
{
    if is_first_user {
        Ok(Role::Admin)
    } else {
        match caller {
            None => Err(ApiError::Unauthorized),
            Some(c) => match require_admin(&c) {
                Err(e) => Err(e),
                Ok(()) => Ok(
                    match requested {
                        Some(x) => x,
                        None => Role::Agent,
                    },
                ),
            },
        }
    }
}

/// The query of a live-updates connection: browsers cannot send an
/// `Authorization` header on the handshake, so the token comes here.
pub struct WsQuery {
    pub token: String,
}

impl AuthUser {
    /// The caller a verified token names: its subject must be a valid id
    /// (else nobody).
    pub fn from_claims(subject: &str, role: Role) -> (r: Option<AuthUser>)
        ensures
            match crate::oid::hex_oid_bytes(subject@) {
                Some(b) => r matches Some(u) && u.user_id.bytes@ == b && u.role == role,
                None => r is None,
            },
    {
        match crate::oid::parse_oid(subject) {
            Ok(o) => Some(AuthUser { user_id: o, role }),
            Err(_) => None,
        }
    }
}

} // verus!
