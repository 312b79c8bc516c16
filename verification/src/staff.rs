//! Staff accounts and teams: registration and login inputs, what a user
//! edit writes, the public and directory views of a user, and teams.
use vstd::prelude::*;
use crate::auth::Role;
use crate::error::{bad_request, ApiError};
use crate::oid::{hex_oid_bytes, hex_text, parse_oid, parse_opt_oid, Oid};
use crate::policies::{fields_view, id_ok, opt_hex_text, opt_id_ok, opt_text_field, opt_to_hex, push_field, push_opt_text, set_field};
use crate::reminders::{opt_hex, opt_id_hex};
use crate::text::{contains_chars, contains_seq, lowercase, str_chars, to_lowercase};
use crate::value::{Field, FieldV, Value, ValueV};

verus! {

broadcast use vstd::string::group_string_axioms;

/// A staff account.
pub struct User {
    pub id: Option<Oid>,
    pub name: String,
    /// Stored lower-cased.
    pub email: String,
    pub phone: Option<String>,
    /// Never sent to clients.
    pub password_hash: String,
    pub role: Role,
    pub team_id: Option<Oid>,
    /// The user's messaging public key (JWK JSON), once their browser has
    /// made one.
    pub public_key: Option<String>,
    pub created_at: i64,
}

/// A user as admins and the user themself see them.
pub struct UserPublic {
    pub id: String,
    pub name: String,
    pub email: String,
    pub phone: Option<String>,
    pub role: Role,
    pub team_id: Option<String>,
}

/// A user as every colleague sees them in the messaging picker.
pub struct UserDirectoryEntry {
    pub id: String,
    pub name: String,
    pub public_key: Option<String>,
}

/// An admin's edit of a user: a new role, and a team ("" clears it).
pub struct UpdateUserInput {
    pub role: Option<Role>,
    pub team_id: Option<String>,
}

/// The caller's own messaging public key.
pub struct SetPublicKeyInput {
    pub public_key: String,
}

/// A registration request.
pub struct RegisterInput {
    pub name: String,
    pub email: String,
    pub phone: Option<String>,
    pub password: String,
    pub role: Option<Role>,
}

/// A login request.
pub struct LoginInput {
    pub email: String,
    pub password: String,
}

/// A successful login: the session token and the user.
pub struct AuthResponse {
    pub token: String,
    pub user: UserPublic,
}

/// A team: a manager and the members whose books the manager sees.
pub struct Team {
    pub id: Option<Oid>,
    pub name: String,
    pub manager_id: Oid,
    pub member_ids: Vec<Oid>,
}

/// A request to create a team; ids are hex text.
pub struct CreateTeamInput {
    pub name: String,
    pub manager_id: String,
    pub member_ids: Vec<String>,
}

/// A partial edit of a team; ids are hex text.
pub struct UpdateTeamInput {
    pub name: Option<String>,
    pub manager_id: Option<String>,
    pub member_ids: Option<Vec<String>>,
}

/// A team as the API returns it.
pub struct TeamResponse {
    pub id: String,
    pub name: String,
    pub manager_id: String,
    pub member_ids: Vec<String>,
}

/// Stored name of a role.
pub open spec fn role_key_spec(r: Role) -> Seq<char> {
    match r {
        Role::Admin => "admin"@,
        Role::Manager => "manager"@,
        Role::Agent => "agent"@,
    }
}

/// Stored name of a role.
pub fn role_key(r: Role) -> (s: &'static str)
    ensures
        s@ == role_key_spec(r),
{
    match r {
        Role::Admin => "admin",
        Role::Manager => "manager",
        Role::Agent => "agent",
    }
}

/// The account a registration creates: the email lower-cased, the given
/// role and password hash, no team and no key yet.
pub fn new_user(input: RegisterInput, role: Role, password_hash: String, now: i64) -> (u: User)
    ensures
        u.id is None,
        u.name == input.name,
        u.email@ == lowercase(input.email@),
        u.phone == input.phone,
        u.password_hash == password_hash,
        u.role == role,
        u.team_id is None,
        u.public_key is None,
        u.created_at == now,
{
    User {
        id: None,
        name: input.name,
        email: to_lowercase(input.email.as_str()),
        phone: input.phone,
        password_hash,
        role,
        team_id: None,
        public_key: None,
        created_at: now,
    }
}

/// A failed registration insert: a taken email (the database's "duplicate
/// key" error) is a 409, anything else a database error.
pub fn user_insert_error(message: &str) -> (e: ApiError)
    ensures
        contains_seq(message@, "duplicate key"@) ==> (e matches ApiError::Conflict(m) && m@
            == "a user with this email already exists"@),
        !contains_seq(message@, "duplicate key"@) ==> (e matches ApiError::Database(m) && m@ == message@),
{
    let cs = str_chars(message);
    let pat = str_chars("duplicate key");
    if contains_chars(&cs, &pat) {
        ApiError::Conflict("a user with this email already exists".to_string())
    } else {
        ApiError::Database(message.to_string())
    }
}

/// The email a login looks up: lower-cased, as stored.
pub fn login_email(input: &LoginInput) -> (r: String)
    ensures
        r@ == lowercase(input.email@),
{
    to_lowercase(input.email.as_str())
}

/// A user found at login must carry an id: a 500 otherwise.
pub fn login_user_id(id: Option<Oid>) -> (r: Result<Oid, ApiError>)
    ensures
        match id {
            Some(o) => r == Ok::<Oid, ApiError>(o),
            None => r matches Err(e) && e matches ApiError::Internal(m) && m@ == "user missing id"@,
        },
{
    match id {
        Some(o) => Ok(o),
        None => Err(ApiError::Internal("user missing id".to_string())),
    }
}

/// What a user edit sets: the role when given; the team when given, where
/// an empty team id clears the team (null).
pub open spec fn user_set_spec(input: UpdateUserInput) -> Seq<FieldV> {
    let role_part = match input.role {
        Some(r) => seq![set_field("role"@, ValueV::Str(role_key_spec(r)))],
        None => Seq::<FieldV>::empty(),
    };
    let team_part = match input.team_id {
        Some(t) => if t@.len() == 0 {
            seq![set_field("team_id"@, ValueV::Null)]
        } else {
            seq![set_field("team_id"@, ValueV::ObjectId(hex_oid_bytes(t@)->0))]
        },
        None => Seq::<FieldV>::empty(),
    };
    role_part + team_part
}

/// A team id of a user edit is acceptable: absent, empty, or a valid id.
pub open spec fn team_id_ok(t: Option<String>) -> bool {
    match t {
        Some(s) => s@.len() == 0 || id_ok(s@),
        None => true,
    }
}

/// The `$set` of a user edit; a team id that is neither empty nor 24 hex
/// digits is a 400 "invalid id".
pub fn user_update_set(input: &UpdateUserInput) -> (r: Result<Vec<Field>, ApiError>)
    ensures
        r is Ok <==> team_id_ok(input.team_id),
        r matches Err(e) ==> (e matches ApiError::BadRequest(m) && m@ == "invalid id"@),
        r matches Ok(fs) ==> fields_view(fs@) == user_set_spec(*input),
{
    let mut fs: Vec<Field> = Vec::new();
    if let Some(role) = input.role {
        push_field(&mut fs, "role", Value::Str(role_key(role).to_string()));
    }
    let ghost mid = fields_view(fs@);
    assert(mid =~= match input.role {
        Some(r) => seq![set_field("role"@, ValueV::Str(role_key_spec(r)))],
        None => Seq::<FieldV>::empty(),
    });
    match &input.team_id {
        Some(t) => {
            if str_chars(t.as_str()).len() == 0 {
                push_field(&mut fs, "team_id", Value::Null);
            } else {
                match parse_oid(t.as_str()) {
                    Ok(o) => push_field(&mut fs, "team_id", Value::ObjectId(o)),
                    Err(e) => return Err(e),
                }
            }
        },
        None => {},
    }
    assert(fields_view(fs@) =~= user_set_spec(*input));
    Ok(fs)
}

/// What setting one's public key writes.
pub fn public_key_set(input: SetPublicKeyInput) -> (r: Vec<Field>)
    ensures
        fields_view(r@) == seq![set_field("public_key"@, ValueV::Str(input.public_key@))],
{
    let mut fs: Vec<Field> = Vec::new();
    push_field(&mut fs, "public_key", Value::Str(input.public_key));
    assert(fields_view(fs@) =~= seq![set_field("public_key"@, ValueV::Str(input.public_key@))]);
    fs
}

impl UserPublic {
    /// The public view of a user: no password hash, ids as hex.
    pub fn from_user(u: User) -> (r: UserPublic)
        ensures
            r.id@ == opt_hex(u.id),
            r.name == u.name,
            r.email == u.email,
            r.phone == u.phone,
            r.role == u.role,
            match r.team_id {
                Some(s) => opt_hex_text(u.team_id) == Some(s@),
                None => u.team_id is None,
            },
    {
        UserPublic {
            id: opt_id_hex(&u.id),
            name: u.name,
            email: u.email,
            phone: u.phone,
            role: u.role,
            team_id: opt_to_hex(&u.team_id),
        }
    }
}

impl UserDirectoryEntry {
    /// The directory view of a user: id, name and public key only.
    pub fn from_user(u: User) -> (r: UserDirectoryEntry)
        ensures
            r.id@ == opt_hex(u.id),
            r.name == u.name,
            r.public_key == u.public_key,
    {
        UserDirectoryEntry { id: opt_id_hex(&u.id), name: u.name, public_key: u.public_key }
    }
}

/// Every text is a valid id.
pub open spec fn all_ids_ok(ids: Seq<String>) -> bool {
    forall|i: int| 0 <= i < ids.len() ==> id_ok(#[trigger] ids[i]@)
}

/// Parses a list of ids: all of them, in order, or a 400 "invalid id" when
/// any is not 24 hex digits.
pub fn parse_ids(ids: &Vec<String>) -> (r: Result<Vec<Oid>, ApiError>)
    ensures
        r is Ok <==> all_ids_ok(ids@),
        r matches Err(e) ==> (e matches ApiError::BadRequest(m) && m@ == "invalid id"@),
        r matches Ok(os) ==> os@.len() == ids@.len() && forall|i: int| 0 <= i < os@.len() ==> (#[trigger] os@[i]).bytes@
            == hex_oid_bytes(ids@[i]@)->0,
{
    let mut out: Vec<Oid> = Vec::new();
    let mut i: usize = 0;
    while i < ids.len()
        invariant
            i <= ids@.len(),
            out@.len() == i,
            forall|k: int| 0 <= k < i ==> id_ok(#[trigger] ids@[k]@),
            forall|k: int| 0 <= k < i ==> (#[trigger] out@[k]).bytes@ == hex_oid_bytes(ids@[k]@)->0,
        decreases ids.len() - i,
    {
        match parse_oid(ids[i].as_str()) {
            Ok(o) => out.push(o),
            Err(e) => return Err(e),
        }
        i = i + 1;
    }
    Ok(out)
}

/// The team a request creates; any id that is not 24 hex digits is a 400
/// "invalid id".
pub fn new_team(input: CreateTeamInput) -> (r: Result<Team, ApiError>)
    ensures
        r is Ok <==> all_ids_ok(input.member_ids@) && id_ok(input.manager_id@),
        r matches Err(e) ==> (e matches ApiError::BadRequest(m) && m@ == "invalid id"@),
        r matches Ok(t) ==> {
            &&& t.id is None
            &&& t.name == input.name
            &&& t.manager_id.bytes@ == hex_oid_bytes(input.manager_id@)->0
            &&& t.member_ids@.len() == input.member_ids@.len()
            &&& forall|i: int| 0 <= i < t.member_ids@.len() ==> (#[trigger] t.member_ids@[i]).bytes@ == hex_oid_bytes(
                input.member_ids@[i]@,
            )->0
        },
{
    let member_ids = match parse_ids(&input.member_ids) {
        Ok(v) => v,
        Err(e) => return Err(e),
    };
    let manager_id = match parse_oid(input.manager_id.as_str()) {
        Ok(o) => o,
        Err(e) => return Err(e),
    };
    Ok(Team { id: None, name: input.name, manager_id, member_ids })
}

/// A team edit: the scalar fields it sets, and the member list that
/// replaces the old one (set last) when given.
pub struct TeamUpdate {
    pub fields: Vec<Field>,
    pub member_ids: Option<Vec<Oid>>,
}

/// The `$set` of a team edit; any id that is not 24 hex digits is a 400
/// "invalid id".
pub fn team_update(input: &UpdateTeamInput) -> (r: Result<TeamUpdate, ApiError>)
    ensures
        r is Ok <==> opt_id_ok(input.manager_id) && match input.member_ids {
            Some(ids) => all_ids_ok(ids@),
            None => true,
        },
        r matches Err(e) ==> (e matches ApiError::BadRequest(m) && m@ == "invalid id"@),
        r matches Ok(u) ==> {
            &&& fields_view(u.fields@) == opt_text_field("name"@, input.name) + match input.manager_id {
                Some(s) => seq![set_field("manager_id"@, ValueV::ObjectId(hex_oid_bytes(s@)->0))],
                None => Seq::<FieldV>::empty(),
            }
            &&& match input.member_ids {
                Some(ids) => u.member_ids matches Some(os) && os@.len() == ids@.len() && forall|i: int|
                    0 <= i < os@.len() ==> (#[trigger] os@[i]).bytes@ == hex_oid_bytes(ids@[i]@)->0,
                None => u.member_ids is None,
            }
        },
{
    let manager = match parse_opt_oid(&input.manager_id) {
        Ok(o) => o,
        Err(e) => return Err(e),
    };
    let members = match &input.member_ids {
        Some(ids) => match parse_ids(ids) {
            Ok(v) => Some(v),
            Err(e) => return Err(e),
        },
        None => None,
    };
    let mut fs: Vec<Field> = Vec::new();
    push_opt_text(&mut fs, "name", &input.name);
    let ghost mid = fields_view(fs@);
    if let Some(o) = manager {
        push_field(&mut fs, "manager_id", Value::ObjectId(o));
    }
    assert(fields_view(fs@) =~= mid + match input.manager_id {
        Some(s) => seq![set_field("manager_id"@, ValueV::ObjectId(hex_oid_bytes(s@)->0))],
        None => Seq::<FieldV>::empty(),
    });
    Ok(TeamUpdate { fields: fs, member_ids: members })
}

impl TeamResponse {
    /// The API form of a team: ids as hex (the id empty when absent).
    pub fn from_team(t: Team) -> (r: TeamResponse)
        ensures
            r.id@ == opt_hex(t.id),
            r.name == t.name,
            r.manager_id@ == hex_text(t.manager_id.bytes@),
            r.member_ids@.len() == t.member_ids@.len(),
            forall|i: int| 0 <= i < r.member_ids@.len() ==> (#[trigger] r.member_ids@[i])@ == hex_text(
                t.member_ids@[i].bytes@,
            ),
    {
        let mut ms: Vec<String> = Vec::new();
        let mut i: usize = 0;
        while i < t.member_ids.len()
            invariant
                i <= t.member_ids@.len(),
                ms@.len() == i,
                forall|k: int| 0 <= k < i ==> (#[trigger] ms@[k])@ == hex_text(t.member_ids@[k].bytes@),
            decreases t.member_ids.len() - i,
        {
            ms.push(t.member_ids[i].to_hex());
            i = i + 1;
        }
        TeamResponse { id: opt_id_hex(&t.id), name: t.name, manager_id: t.manager_id.to_hex(), member_ids: ms }
    }
}

/// The built-in account the AI extraction service authenticates as: the
/// fixed system id, an admin, with a password hash nobody can log in with.
pub fn system_user(password_hash: String, now: i64) -> (u: User)
    ensures
        u.id matches Some(o) && o.bytes@ == crate::oid::system_user_bytes(),
        u.name@ == "AI Extraction Service"@,
        u.email@ == "ai-extraction@internal.local"@,
        u.phone is None,
        u.password_hash == password_hash,
        u.role == Role::Admin,
        u.team_id is None,
        u.public_key is None,
        u.created_at == now,
{
    proof {
        crate::oid::lemma_system_user_id();
    }
    let id = parse_oid(crate::oid::SYSTEM_USER_ID);
    let oid = match id {
        Ok(o) => o,
        Err(_) => Oid { bytes: [0u8, 0, 0, 0, 0, 0, 0, 0, 0, 0, 0, 1] },
    };
    User {
        id: Some(oid),
        name: "AI Extraction Service".to_string(),
        email: "ai-extraction@internal.local".to_string(),
        phone: None,
        password_hash,
        role: Role::Admin,
        team_id: None,
        public_key: None,
        created_at: now,
    }
}

} // verus!
