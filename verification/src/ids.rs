//! Identifiers of rooms and participants: random (version 4) UUIDs, held as
//! their 128-bit value.
use vstd::prelude::*;
use vstd::arithmetic::power2::pow2;

verus! {

/// `uuid::Uuid`, carried through as an opaque value.
#[verifier::external_type_specification]
#[verifier::external_body]
pub struct ExUuid(uuid::Uuid);

/// `uuid::Error`, the parse failure of `uuid::Uuid::parse_str`.
#[verifier::external_type_specification]
#[verifier::external_body]
pub struct ExUuidError(uuid::Error);

/// The lowercase hexadecimal digit of a value below 16.
pub open spec fn hex_digit(n: int) -> char {
    if n < 10 {
        (n + 48) as char
    } else {
        (n + 87) as char
    }
}

/// The `k`-th hexadecimal digit of `v`, counted from the most significant one.
pub open spec fn nibble(v: u128, k: int) -> int {
    ((v as int) / (pow2((124 - 4 * k) as nat) as int)) % 16
}

/// Position among the 32 digits of the character at index `i` of the
/// hyphenated text.
pub open spec fn digit_index(i: int) -> int {
    if i < 8 {
        i
    } else if i < 13 {
        i - 1
    } else if i < 18 {
        i - 2
    } else if i < 23 {
        i - 3
    } else {
        i - 4
    }
}

/// The hyphenated lowercase text of a UUID value
/// (`xxxxxxxx-xxxx-xxxx-xxxx-xxxxxxxxxxxx`).
pub open spec fn uuid_text(v: u128) -> Seq<char> {
    Seq::new(
        36,
        |i: int|
            if i == 8 || i == 13 || i == 18 || i == 23 {
                '-'
            } else {
                hex_digit(nibble(v, digit_index(i)))
            },
    )
}

/// Whether a UUID value carries version 4 and the RFC 4122 variant.
pub open spec fn is_v4(v: u128) -> bool {
    &&& (v >> 76u128) & 0xfu128 == 4u128
    &&& (v >> 62u128) & 3u128 == 2u128
}

/// The value that `uuid::Uuid::parse_str` gives for a text, when it accepts it.
pub uninterp spec fn uuid_parse(text: Seq<char>) -> Option<u128>;

/// `uuid::Uuid::new_v4`: a random UUID. Its source masks random bits and
/// sets the version nibble to 4 and the variant bits to `10`; that is all
/// that is claimed of the value.
#[verifier::external_body]
fn uuid_new_v4() -> (r: u128)
    ensures
        is_v4(r),
{
    uuid::Uuid::new_v4().as_u128()
}

/// `Display` of `uuid::Uuid` (hyphenated, lowercase): the claim is that the
/// text is the 36 characters of `uuid_text`.
#[verifier::external_body]
fn uuid_format(v: u128) -> (r: String)
    ensures
        r@ == uuid_text(v),
{
    uuid::Uuid::from_u128(v).to_string()
}

/// `uuid::Uuid::parse_str`: the result is named `uuid_parse`; the one fact
/// claimed beyond the name is that the hyphenated lowercase text of a value
/// parses back to that value, as the parser's source accepts that form.
#[verifier::external_body]
fn uuid_parse_str(s: &str) -> (r: Result<u128, uuid::Error>)
    ensures
        r is Ok <==> uuid_parse(s@) is Some,
        r is Ok ==> uuid_parse(s@) == Some(r->Ok_0),
        forall|v: u128| s@ == uuid_text(v) ==> (r is Ok && r->Ok_0 == v),
{
    uuid::Uuid::parse_str(s).map(|u| u.as_u128())
}

/// The `uuid::Uuid` that `uuid::Uuid::from_u128` builds from a value.
pub uninterp spec fn uuid_of(v: u128) -> uuid::Uuid;

/// `uuid::Uuid::from_u128`, handed out as the outside type: the result is
/// named `uuid_of` of the value; the function reads nothing but its argument.
#[verifier::external_body]
fn uuid_from_value(v: u128) -> (r: uuid::Uuid)
    ensures
        r == uuid_of(v),
{
    uuid::Uuid::from_u128(v)
}

/// A text that is not a UUID.
#[derive(Debug, Clone, Copy, PartialEq, Eq, Structural)]
pub enum IdParseError {
    InvalidUuid,
}

/// Unique identifier of a room.
#[derive(Clone, Copy, Debug, PartialEq, Eq, Hash, Structural)]
pub struct RoomId(u128);

/// Unique identifier of a participant.
#[derive(Clone, Copy, Debug, PartialEq, Eq, Hash, Structural)]
pub struct ParticipantId(u128);

impl View for RoomId {
    type V = u128;

    closed spec fn view(&self) -> u128 {
        self.0
    }
}

impl View for ParticipantId {
    type V = u128;

    closed spec fn view(&self) -> u128 {
        self.0
    }
}

impl RoomId {
    /// Creates a room id from a freshly generated version 4 UUID.
    pub fn new() -> (r: Self)
        ensures
            is_v4(r@),
    {
        RoomId(uuid_new_v4())
    }

    /// The 128-bit value of the id.
    pub fn as_u128(&self) -> (r: u128)
        ensures
            r == self@,
    {
        self.0
    }

    /// The id as a `uuid::Uuid`.
    pub fn as_uuid(&self) -> (r: uuid::Uuid)
        ensures
            r == uuid_of(self@),
    {
        uuid_from_value(self.0)
    }

    /// The hyphenated lowercase text of the id.
    pub fn to_string(&self) -> (r: String)
        ensures
            r@ == uuid_text(self@),
    {
        uuid_format(self.0)
    }

    /// Parses a UUID text into a room id.
    pub fn parse_str(s: &str) -> (r: Result<Self, IdParseError>)
        ensures
            r is Ok <==> uuid_parse(s@) is Some,
            r is Ok ==> uuid_parse(s@) == Some(r->Ok_0@),
            forall|v: u128| s@ == uuid_text(v) ==> (r is Ok && r->Ok_0@ == v),
    {
        match uuid_parse_str(s) {
            Ok(v) => Ok(RoomId(v)),
            Err(_) => Err(IdParseError::InvalidUuid),
        }
    }
}

impl ParticipantId {
    /// Creates a participant id from a freshly generated version 4 UUID.
    pub fn new() -> (r: Self)
        ensures
            is_v4(r@),
    {
        ParticipantId(uuid_new_v4())
    }

    /// The 128-bit value of the id.
    pub fn as_u128(&self) -> (r: u128)
        ensures
            r == self@,
    {
        self.0
    }

    /// The id as a `uuid::Uuid`.
    pub fn as_uuid(&self) -> (r: uuid::Uuid)
        ensures
            r == uuid_of(self@),
    {
        uuid_from_value(self.0)
    }

    /// The hyphenated lowercase text of the id.
    pub fn to_string(&self) -> (r: String)
        ensures
            r@ == uuid_text(self@),
    {
        uuid_format(self.0)
    }

    /// Parses a UUID text into a participant id.
    pub fn parse_str(s: &str) -> (r: Result<Self, IdParseError>)
        ensures
            r is Ok <==> uuid_parse(s@) is Some,
            r is Ok ==> uuid_parse(s@) == Some(r->Ok_0@),
            forall|v: u128| s@ == uuid_text(v) ==> (r is Ok && r->Ok_0@ == v),
    {
        match uuid_parse_str(s) {
            Ok(v) => Ok(ParticipantId(v)),
            Err(_) => Err(IdParseError::InvalidUuid),
        }
    }
}

impl Default for RoomId {
    fn default() -> (r: Self)
        ensures
            is_v4(r@),
    {
        RoomId::new()
    }
}

impl Default for ParticipantId {
    fn default() -> (r: Self)
        ensures
            is_v4(r@),
    {
        ParticipantId::new()
    }
}

/// A freshly generated id is never the nil UUID.
pub proof fn lemma_v4_not_nil(v: u128)
    requires
        is_v4(v),
    ensures
        v != 0,
{
    assert(is_v4(v) ==> v != 0) by (bit_vector);
}

impl core::str::FromStr for RoomId {
    type Err = IdParseError;

    fn from_str(s: &str) -> (r: Result<Self, IdParseError>)
        ensures
            r is Ok <==> uuid_parse(s@) is Some,
            r is Ok ==> uuid_parse(s@) == Some(r->Ok_0@),
            forall|v: u128| s@ == uuid_text(v) ==> (r is Ok && r->Ok_0@ == v),
    {
        RoomId::parse_str(s)
    }
}

impl core::str::FromStr for ParticipantId {
    type Err = IdParseError;

    fn from_str(s: &str) -> (r: Result<Self, IdParseError>)
        ensures
            r is Ok <==> uuid_parse(s@) is Some,
            r is Ok ==> uuid_parse(s@) == Some(r->Ok_0@),
            forall|v: u128| s@ == uuid_text(v) ==> (r is Ok && r->Ok_0@ == v),
    {
        ParticipantId::parse_str(s)
    }
}

} // verus!
