//! Identifiers of books, users and checkouts. Each is a UUID, held as the
//! 128-bit integer whose big-endian bytes are the UUID's bytes.

use vstd::prelude::*;

verus! {

/// `uuid::Error`, the error of a failed UUID parse.
#[verifier::external_type_specification]
#[verifier::external_body]
pub struct ExUuidError(uuid::Error);

/// The character of a hexadecimal digit `d` (0 <= d < 16), in lower case.
pub open spec fn hex_char(d: int) -> char {
    if d < 10 {
        (d + 48) as char
    } else {
        (d + 87) as char
    }
}

/// 16 to the power `e`.
pub open spec fn pow16(e: nat) -> int
    decreases e,
{
    if e == 0 {
        1
    } else {
        16 * pow16((e - 1) as nat)
    }
}

/// The `k`-th hexadecimal digit of `v`, counted from the most significant
/// one (0 <= k < 32).
pub open spec fn nibble(v: u128, k: int) -> int {
    ((v as int) / pow16((31 - k) as nat)) % 16
}

/// How many hyphens stand before position `i` of the hyphenated form.
pub open spec fn hyphens_before(i: int) -> int {
    if i < 9 {
        0
    } else if i < 14 {
        1
    } else if i < 19 {
        2
    } else if i < 24 {
        3
    } else {
        4
    }
}

/// The hyphenated lower-case text of a UUID, such as
/// `67e55044-10b1-426f-9247-bb680e5fe0c8`: its 32 hexadecimal digits,
/// most significant first, in groups of 8, 4, 4, 4 and 12.
pub open spec fn uuid_text(v: u128) -> Seq<char> {
    Seq::new(
        36,
        |i: int|
            if i == 8 || i == 13 || i == 18 || i == 23 {
                '-'
            } else {
                hex_char(nibble(v, i - hyphens_before(i)))
            },
    )
}

/// What `uuid::Uuid::parse_str` gives back for a text: the UUID's integer
/// for an accepted text, the parse error for a refused one.
pub uninterp spec fn uuid_parse(s: Seq<char>) -> Result<u128, uuid::Error>;

/// Formats the UUID of integer `v` with `uuid::Uuid::from_u128` and the
/// `Display` impl of `uuid::Uuid`, which writes the hyphenated lower-case
/// form. Claimed: the text is `uuid_text(v)`.
#[verifier::external_body]
pub(crate) fn format_uuid(v: u128) -> (text: String)
    ensures
        text@ == uuid_text(v),
{
    uuid::Uuid::from_u128(v).to_string()
}

/// Parses a UUID with `uuid::Uuid::parse_str` and reads it back with
/// `as_u128`. Claimed: the outcome, the integer or the error, is the one
/// `uuid_parse` names for the text, and the hyphenated lower-case text of
/// any UUID parses back to that UUID (the parser takes 36-character input
/// with hyphens at positions 8, 13, 18 and 23 and hexadecimal digits
/// elsewhere).
#[verifier::external_body]
pub(crate) fn parse_uuid(s: &str) -> (res: Result<u128, uuid::Error>)
    ensures
        res == uuid_parse(s@),
        match res {
            Ok(v) => forall|w: u128| s@ == uuid_text(w) ==> w == v,
            Err(_) => forall|w: u128| s@ != uuid_text(w),
        },
{
    uuid::Uuid::parse_str(s).map(|u| u.as_u128())
}

/// Draws a random version-4 UUID with `uuid::Uuid::new_v4` and reads it
/// with `as_u128`. The value is random; claimed only what every outcome
/// shares: the version digit is 4 and the variant bits are `10`.
#[verifier::external_body]
pub(crate) fn random_uuid() -> (v: u128)
    ensures
        v & 0x0000_0000_0000_F000_C000_0000_0000_0000u128
            == 0x0000_0000_0000_4000_8000_0000_0000_0000u128,
{
    uuid::Uuid::new_v4().as_u128()
}

/// The identifier of a book.
#[derive(Clone, Copy, Debug, PartialEq, Eq, Structural)]
pub struct BookId(pub u128);

/// The identifier of a user.
#[derive(Clone, Copy, Debug, PartialEq, Eq, Structural)]
pub struct UserId(pub u128);

/// The identifier of a checkout.
#[derive(Clone, Copy, Debug, PartialEq, Eq, Structural)]
pub struct CheckoutId(pub u128);

impl BookId {
    /// The hyphenated text of the identifier.
    pub fn to_text(&self) -> (text: String)
        ensures
            text@ == uuid_text(self.0),
    {
        format_uuid(self.0)
    }
}

impl UserId {
    /// The hyphenated text of the identifier.
    pub fn to_text(&self) -> (text: String)
        ensures
            text@ == uuid_text(self.0),
    {
        format_uuid(self.0)
    }

    /// Reads a user identifier from its text.
    pub fn from_text(s: &str) -> (res: Result<UserId, uuid::Error>)
        ensures
            match res {
                Ok(id) => uuid_parse(s@) == Ok::<u128, uuid::Error>(id.0),
                Err(e) => uuid_parse(s@) == Err::<u128, uuid::Error>(e),
            },
            forall|v: u128| s@ == uuid_text(v) ==> res == Ok::<UserId, uuid::Error>(UserId(v)),
    {
        match parse_uuid(s) {
            Ok(v) => Ok(UserId(v)),
            Err(e) => Err(e),
        }
    }
}

impl CheckoutId {
    /// A fresh random identifier.
    pub fn new() -> (id: CheckoutId)
        ensures
            id.0 & 0x0000_0000_0000_F000_C000_0000_0000_0000u128
                == 0x0000_0000_0000_4000_8000_0000_0000_0000u128,
    {
        CheckoutId(random_uuid())
    }

    /// The hyphenated text of the identifier.
    pub fn to_text(&self) -> (text: String)
        ensures
            text@ == uuid_text(self.0),
    {
        format_uuid(self.0)
    }
}

} // verus!
