//! Identifiers shared by the services: user, book and review ids are UUIDs,
//! held here as their 128-bit value.

use vstd::prelude::*;
use vstd::arithmetic::power::pow;
use uuid::Error as UuidError;

verus! {

#[verifier::external_type_specification]
#[verifier::external_body]
pub struct ExUuidError(UuidError);

/// The lowercase hexadecimal digit for a value below 16.
pub open spec fn hex_digit(n: int) -> char {
    if n < 10 {
        (48 + n) as char
    } else {
        (87 + n) as char
    }
}

/// The `k`-th hexadecimal digit of `v`, counting from the most significant.
pub open spec fn nibble(v: u128, k: int) -> int {
    (v as int / pow(16, (31 - k) as nat)) % 16
}

/// How many separating hyphens stand before position `p` of the hyphenated form.
pub open spec fn hyphens_before(p: int) -> int {
    if p < 8 {
        0
    } else if p < 13 {
        1
    } else if p < 18 {
        2
    } else if p < 23 {
        3
    } else {
        4
    }
}

/// The hyphenated lowercase text of a UUID, `xxxxxxxx-xxxx-xxxx-xxxx-xxxxxxxxxxxx`.
pub open spec fn uuid_text(v: u128) -> Seq<char> {
    Seq::new(
        36,
        |p: int|
            if p == 8 || p == 13 || p == 18 || p == 23 {
                '-'
            } else {
                hex_digit(nibble(v, p - hyphens_before(p)))
            },
    )
}

/// What `uuid::Uuid::parse_str` gives back for a text, as the UUID's 128-bit
/// value, or `None` where it reports an error.
pub uninterp spec fn uuid_parse_value(s: Seq<char>) -> Option<u128>;

/// `uuid::Uuid::parse_str`, read back with `Uuid::as_u128`.
/// Claimed: the outcome is the one named by [`uuid_parse_value`]; an accepted
/// text is 32, 36, 38 or 45 characters long (the simple, hyphenated, braced
/// and URN forms, all ASCII).
#[verifier::external_body]
fn uuid_parse(s: &str) -> (r: Result<u128, UuidError>)
    ensures
        r is Ok <==> uuid_parse_value(s@) is Some,
        r matches Ok(v) ==> uuid_parse_value(s@) == Some(v),
        r is Ok ==> (s@.len() == 32 || s@.len() == 36 || s@.len() == 38 || s@.len() == 45),
{
    uuid::Uuid::parse_str(s).map(|u| u.as_u128())
}

/// `Display` of `uuid::Uuid::from_u128(v)`. Claimed: the text is the
/// hyphenated lowercase form, and `Uuid::parse_str` reads it back as `v`.
#[verifier::external_body]
pub(crate) fn uuid_format(v: u128) -> (s: String)
    ensures
        s@ == uuid_text(v),
        uuid_parse_value(s@) == Some(v),
{
    uuid::Uuid::from_u128(v).to_string()
}

/// `uuid::Uuid::new_v4`, read back with `Uuid::as_u128`. The value is random;
/// what holds of every outcome is that the version nibble is 4 and the
/// variant bits are `10`.
#[verifier::external_body]
fn uuid_new_v4() -> (v: u128)
    ensures
        v & 0xF000_C000_0000_0000_0000u128 == 0x4000_8000_0000_0000_0000u128,
{
    uuid::Uuid::new_v4().as_u128()
}

/// A fresh random version-4 UUID value; never the nil UUID.
pub fn fresh_uuid() -> (v: u128)
    ensures
        v != 0,
        v & 0xF000_C000_0000_0000_0000u128 == 0x4000_8000_0000_0000_0000u128,
{
    let v = uuid_new_v4();
    assert(v & 0xF000_C000_0000_0000_0000u128 == 0x4000_8000_0000_0000_0000u128 ==> v != 0)
        by (bit_vector);
    v
}

/// Identifier of a library member.
#[derive(Debug, Clone, Copy, PartialEq, Eq, Hash, Structural)]
pub struct UserId(u128);

/// Identifier of a book.
#[derive(Debug, Clone, Copy, PartialEq, Eq, Hash, Structural)]
pub struct BookId(u128);

/// Identifier of a review.
#[derive(Debug, Clone, Copy, PartialEq, Eq, Hash, Structural)]
pub struct ReviewId(u128);

impl UserId {
    /// The UUID value of this id.
    pub closed spec fn value(self) -> u128 {
        self.0
    }

    pub fn new(id: u128) -> (r: Self)
        ensures
            r.value() == id,
    {
        UserId(id)
    }

    pub fn into_uuid(self) -> (r: u128)
        ensures
            r == self.value(),
    {
        self.0
    }

    /// Ids with the same UUID value are the same id.
    pub proof fn lemma_value_injective(a: Self, b: Self)
        ensures
            a.value() == b.value() ==> a == b,
    {
    }

    /// The hyphenated lowercase text of the UUID (what `Display` shows);
    /// parsing it gives this id back.
    pub fn to_string(&self) -> (s: String)
        ensures
            s@ == uuid_text(self.value()),
            uuid_parse_value(s@) == Some(self.value()),
    {
        uuid_format(self.0)
    }

    /// Parses a UUID text (simple, hyphenated, braced or URN form).
    pub fn parse_str(s: &str) -> (r: Result<Self, UuidError>)
        ensures
            r is Ok <==> uuid_parse_value(s@) is Some,
            r matches Ok(id) ==> uuid_parse_value(s@) == Some(id.value()),
            r is Ok ==> (s@.len() == 32 || s@.len() == 36 || s@.len() == 38 || s@.len() == 45),
    {
        match uuid_parse(s) {
            Ok(v) => Ok(UserId(v)),
            Err(e) => Err(e),
        }
    }
}

impl BookId {
    /// The UUID value of this id.
    pub closed spec fn value(self) -> u128 {
        self.0
    }

    pub fn new(id: u128) -> (r: Self)
        ensures
            r.value() == id,
    {
        BookId(id)
    }

    pub fn into_uuid(self) -> (r: u128)
        ensures
            r == self.value(),
    {
        self.0
    }

    /// Ids with the same UUID value are the same id.
    pub proof fn lemma_value_injective(a: Self, b: Self)
        ensures
            a.value() == b.value() ==> a == b,
    {
    }

    /// The hyphenated lowercase text of the UUID (what `Display` shows);
    /// parsing it gives this id back.
    pub fn to_string(&self) -> (s: String)
        ensures
            s@ == uuid_text(self.value()),
            uuid_parse_value(s@) == Some(self.value()),
    {
        uuid_format(self.0)
    }

    /// Parses a UUID text (simple, hyphenated, braced or URN form).
    pub fn parse_str(s: &str) -> (r: Result<Self, UuidError>)
        ensures
            r is Ok <==> uuid_parse_value(s@) is Some,
            r matches Ok(id) ==> uuid_parse_value(s@) == Some(id.value()),
            r is Ok ==> (s@.len() == 32 || s@.len() == 36 || s@.len() == 38 || s@.len() == 45),
    {
        match uuid_parse(s) {
            Ok(v) => Ok(BookId(v)),
            Err(e) => Err(e),
        }
    }
}

impl ReviewId {
    /// The UUID value of this id.
    pub closed spec fn value(self) -> u128 {
        self.0
    }

    pub fn new(id: u128) -> (r: Self)
        ensures
            r.value() == id,
    {
        ReviewId(id)
    }

    pub fn into_uuid(self) -> (r: u128)
        ensures
            r == self.value(),
    {
        self.0
    }

    /// Ids with the same UUID value are the same id.
    pub proof fn lemma_value_injective(a: Self, b: Self)
        ensures
            a.value() == b.value() ==> a == b,
    {
    }

    /// The hyphenated lowercase text of the UUID (what `Display` shows);
    /// parsing it gives this id back.
    pub fn to_string(&self) -> (s: String)
        ensures
            s@ == uuid_text(self.value()),
            uuid_parse_value(s@) == Some(self.value()),
    {
        uuid_format(self.0)
    }

    /// Parses a UUID text (simple, hyphenated, braced or URN form).
    pub fn parse_str(s: &str) -> (r: Result<Self, UuidError>)
        ensures
            r is Ok <==> uuid_parse_value(s@) is Some,
            r matches Ok(id) ==> uuid_parse_value(s@) == Some(id.value()),
            r is Ok ==> (s@.len() == 32 || s@.len() == 36 || s@.len() == 38 || s@.len() == 45),
    {
        match uuid_parse(s) {
            Ok(v) => Ok(ReviewId(v)),
            Err(e) => Err(e),
        }
    }
}

impl std::str::FromStr for UserId {
    type Err = UuidError;

    /// Parses a UUID text, as [`UserId::parse_str`] does.
    fn from_str(s: &str) -> (r: Result<Self, UuidError>)
        ensures
            r is Ok <==> uuid_parse_value(s@) is Some,
            r matches Ok(id) ==> uuid_parse_value(s@) == Some(id.value()),
            r is Ok ==> (s@.len() == 32 || s@.len() == 36 || s@.len() == 38 || s@.len() == 45),
    {
        UserId::parse_str(s)
    }
}

impl std::str::FromStr for BookId {
    type Err = UuidError;

    /// Parses a UUID text, as [`BookId::parse_str`] does.
    fn from_str(s: &str) -> (r: Result<Self, UuidError>)
        ensures
            r is Ok <==> uuid_parse_value(s@) is Some,
            r matches Ok(id) ==> uuid_parse_value(s@) == Some(id.value()),
            r is Ok ==> (s@.len() == 32 || s@.len() == 36 || s@.len() == 38 || s@.len() == 45),
    {
        BookId::parse_str(s)
    }
}

impl std::str::FromStr for ReviewId {
    type Err = UuidError;

    /// Parses a UUID text, as [`ReviewId::parse_str`] does.
    fn from_str(s: &str) -> (r: Result<Self, UuidError>)
        ensures
            r is Ok <==> uuid_parse_value(s@) is Some,
            r matches Ok(id) ==> uuid_parse_value(s@) == Some(id.value()),
            r is Ok ==> (s@.len() == 32 || s@.len() == 36 || s@.len() == 38 || s@.len() == 45),
    {
        ReviewId::parse_str(s)
    }
}

} // verus!
