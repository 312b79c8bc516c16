//! Record identifiers: 12-byte MongoDB object ids and their hex form.
use vstd::prelude::*;
use crate::error::{ApiError, bad_request};

verus! {

/// Declares bson's object-id parse error so a wrapper can return it.
#[verifier::external_type_specification]
#[verifier::external_body]
pub struct ExOidError(bson::oid::Error);

/// A record id: the 12 bytes of a MongoDB `ObjectId`.
#[derive(Clone, Copy, Debug)]
pub struct Oid {
    pub bytes: [u8; 12],
}

impl PartialEq for Oid {
    fn eq(&self, other: &Self) -> (r: bool) {
        let mut i: usize = 0;
        while i < 12
            invariant
                i <= 12,
                forall|j: int| 0 <= j < i ==> self.bytes@[j] == other.bytes@[j],
            decreases 12 - i,
        {
            if self.bytes[i] != other.bytes[i] {
                return false;
            }
            i = i + 1;
        }
        assert(self.bytes@ =~= other.bytes@);
        true
    }
}

impl Eq for Oid {}

impl vstd::std_specs::cmp::PartialEqSpecImpl for Oid {
    open spec fn obeys_eq_spec() -> bool {
        true
    }

    open spec fn eq_spec(&self, other: &Oid) -> bool {
        self.bytes@ == other.bytes@
    }
}

/// Value of a hexadecimal digit, either case, or `None`.
pub open spec fn hex_value(c: char) -> Option<int> {
    if '0' <= c && c <= '9' {
        Some(c as int - '0' as int)
    } else if 'a' <= c && c <= 'f' {
        Some(c as int - 'a' as int + 10)
    } else if 'A' <= c && c <= 'F' {
        Some(c as int - 'A' as int + 10)
    } else {
        None
    }
}

/// Lower-case hexadecimal digit for `n` in `0..16`.
pub open spec fn hex_digit(n: int) -> char {
    if n < 10 {
        (n + '0' as int) as char
    } else {
        (n - 10 + 'a' as int) as char
    }
}

/// Lower-case hex text of a byte sequence, two digits per byte.
pub open spec fn hex_text(b: Seq<u8>) -> Seq<char> {
    Seq::new(
        2 * b.len(),
        |i: int| if i % 2 == 0 { hex_digit(b[i / 2] as int / 16) } else { hex_digit(b[i / 2] as int % 16) },
    )
}

/// The 12 bytes that a 24-digit hex string denotes, or `None` when the text
/// is not exactly 24 hex digits.
pub open spec fn hex_oid_bytes(s: Seq<char>) -> Option<Seq<u8>> {
    if s.len() == 24 && forall|i: int| 0 <= i < 24 ==> (#[trigger] hex_value(s[i])) is Some {
        Some(Seq::new(12, |k: int| (hex_value(s[2 * k])->0 * 16 + hex_value(s[2 * k + 1])->0) as u8))
    } else {
        None
    }
}

/// `bson::oid::ObjectId::parse_str`: succeeds exactly on 24 hex digits of
/// either case (the `hex` crate's decoding, then a 12-byte length check),
/// and then yields the bytes they spell.
#[verifier::external_body]
fn parse_object_id(s: &str) -> (r: Result<Oid, bson::oid::Error>)
    ensures
        r is Ok <==> hex_oid_bytes(s@) is Some,
        r matches Ok(o) ==> o.bytes@ == hex_oid_bytes(s@)->0,
{
    bson::oid::ObjectId::parse_str(s).map(|o| Oid { bytes: o.bytes() })
}

/// `bson::oid::ObjectId::to_hex`: the `hex` crate's lower-case encoding of
/// the 12 bytes.
#[verifier::external_body]
fn object_id_hex(o: Oid) -> (r: String)
    ensures
        r@ == hex_text(o.bytes@),
{
    bson::oid::ObjectId::from_bytes(o.bytes).to_hex()
}

impl Oid {
    /// The 24-digit lower-case hex form of this id.
    pub fn to_hex(&self) -> (r: String)
        ensures
            r@ == hex_text(self.bytes@),
            r@.len() == 24,
    {
        object_id_hex(*self)
    }
}

/// Parses a path or query id; anything but 24 hex digits is a 400
/// "invalid id".
pub fn parse_oid(id: &str) -> (r: Result<Oid, ApiError>)
    ensures
        r is Ok <==> hex_oid_bytes(id@) is Some,
        r matches Ok(o) ==> o.bytes@ == hex_oid_bytes(id@)->0,
        r matches Err(e) ==> (e matches ApiError::BadRequest(m) && m@ == "invalid id"@),
{
    match parse_object_id(id) {
        Ok(o) => Ok(o),
        Err(_) => Err(bad_request("invalid id")),
    }
}

/// View of an optional id.
pub open spec fn oid_opt_view(o: Option<Oid>) -> Option<Seq<u8>> {
    match o {
        Some(x) => Some(x.bytes@),
        None => None,
    }
}

/// Parses an optional id, keeping `None` as `None`.
pub fn parse_opt_oid(id: &Option<String>) -> (r: Result<Option<Oid>, ApiError>)
    ensures
        id is None ==> r == Ok::<Option<Oid>, ApiError>(None),
        id matches Some(s) ==> (r is Ok <==> hex_oid_bytes(s@) is Some),
        id matches Some(s) ==> (r matches Ok(Some(o)) ==> o.bytes@ == hex_oid_bytes(s@)->0),
        id matches Some(s) ==> (r matches Ok(x) ==> x is Some),
        r matches Err(e) ==> (e matches ApiError::BadRequest(m) && m@ == "invalid id"@),
{
    match id {
        None => Ok(None),
        Some(s) => match parse_oid(s.as_str()) {
            Ok(o) => Ok(Some(o)),
            Err(e) => Err(e),
        },
    }
}

/// The id of the built-in system user (shared with the AI extraction
/// service), as text.
pub const SYSTEM_USER_ID: &'static str = "000000000000000000000001";

/// The bytes of the system user's id: eleven zeros then a one.
pub open spec fn system_user_bytes() -> Seq<u8> {
    Seq::new(12, |i: int| if i == 11 { 1u8 } else { 0u8 })
}

/// Hex of a byte then parsing it back gives the byte.
proof fn lemma_hex_byte(b: u8)
    ensures
        hex_value(hex_digit(b as int / 16)) == Some(b as int / 16),
        hex_value(hex_digit(b as int % 16)) == Some(b as int % 16),
        (b as int / 16) * 16 + b as int % 16 == b as int,
{
}

/// Round trip: parsing the hex form of any id gives that id back.
pub proof fn lemma_oid_hex_round_trip(o: Oid)
    ensures
        hex_oid_bytes(hex_text(o.bytes@)) == Some(o.bytes@),
{
    let s = hex_text(o.bytes@);
    assert forall|i: int| 0 <= i < 24 implies (#[trigger] hex_value(s[i])) is Some by {
        lemma_hex_byte(o.bytes@[i / 2]);
    }
    let bs = Seq::new(12, |k: int| (hex_value(s[2 * k])->0 * 16 + hex_value(s[2 * k + 1])->0) as u8);
    assert forall|k: int| 0 <= k < 12 implies bs[k] == o.bytes@[k] by {
        lemma_hex_byte(o.bytes@[k]);
        assert((2 * k) / 2 == k);
        assert((2 * k + 1) / 2 == k);
        assert((2 * k) % 2 == 0);
        assert((2 * k + 1) % 2 == 1);
    }
    assert(bs =~= o.bytes@);
}

/// The system user's id text parses to its bytes.
pub proof fn lemma_system_user_id()
    ensures
        hex_oid_bytes(SYSTEM_USER_ID@) == Some(system_user_bytes()),
{
    reveal_strlit("000000000000000000000001");
    let s = SYSTEM_USER_ID@;
    assert(s.len() == 24);
    assert forall|i: int| 0 <= i < 24 implies (#[trigger] hex_value(s[i])) is Some by {}
    let bs = Seq::new(12, |k: int| (hex_value(s[2 * k])->0 * 16 + hex_value(s[2 * k + 1])->0) as u8);
    assert forall|k: int| 0 <= k < 12 implies bs[k] == system_user_bytes()[k] by {
        assert(hex_value(s[2 * k]) == Some(0int));
    }
    assert(bs =~= system_user_bytes());
}

} // verus!
