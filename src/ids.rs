//! Identifiers: every directly accessible object of the service has a UUID.

use vstd::prelude::*;

verus! {

/// The lowercase hexadecimal digit of value `d`.
pub open spec fn hex_digit(d: int) -> char {
    seq!['0', '1', '2', '3', '4', '5', '6', '7', '8', '9', 'a', 'b', 'c', 'd', 'e', 'f'][d]
}

/// The `k`-th of the 32 four-bit digits of `u`, the most significant first.
pub open spec fn nibble(u: u128, k: int) -> int {
    (u as int / vstd::arithmetic::power::pow(16, (31 - k) as nat)) % 16
}

/// How many hyphens come before position `i` of the hyphenated form.
pub open spec fn hyphens_before(i: int) -> int {
    if i < 8 {
        0
    } else if i < 13 {
        1
    } else if i < 18 {
        2
    } else if i < 23 {
        3
    } else {
        4
    }
}

/// The hyphenated lowercase text of a UUID, such as
/// `127a8c4a-b3c6-4a42-8fef-b6c521e6c8cf`: 32 hex digits in groups of 8, 4, 4, 4, 12.
pub open spec fn hyphenated_text(u: u128) -> Seq<char> {
    Seq::new(
        36,
        |i: int|
            if i == 8 || i == 13 || i == 18 || i == 23 {
                '-'
            } else {
                hex_digit(nibble(u, i - hyphens_before(i)))
            },
    )
}

/// The value that the uuid crate reads from a text, if it reads one.
pub uninterp spec fn uuid_parse_of(s: Seq<char>) -> Option<u128>;

/// Relies on uuid::Uuid::parse_str (also what its serde support calls): reads a UUID
/// from its simple, hyphenated, braced or URN text; the value is taken as a
/// big-endian 128-bit integer.
#[verifier::external_body]
fn parse_uuid_text(s: &str) -> (r: Option<u128>)
    ensures
        r == uuid_parse_of(s@),
{
    uuid::Uuid::parse_str(s).ok().map(|u| u.as_u128())
}

/// Relies on uuid's `Display`, which writes the hyphenated lowercase form of the
/// big-endian bytes of the value.
#[verifier::external_body]
fn format_uuid(u: u128) -> (r: String)
    ensures
        r@ == hyphenated_text(u),
{
    uuid::Uuid::from_u128(u).to_string()
}

/// A UUID, held as its 128-bit value.
#[derive(Debug, Clone, Copy, PartialEq, Eq, Hash)]
pub struct Uuid {
    /// The big-endian 128-bit value.
    pub value: u128,
}

impl View for Uuid {
    type V = u128;

    open spec fn view(&self) -> u128 {
        self.value
    }
}

impl Uuid {
    /// The UUID with the given 128-bit value.
    pub fn from_u128(value: u128) -> (r: Uuid)
        ensures
            r@ == value,
    {
        Uuid { value }
    }

    /// This UUID's 128-bit value.
    pub fn as_u128(&self) -> (r: u128)
        ensures
            r == self@,
    {
        self.value
    }

    /// Reads a UUID from text; `None` where the text is no UUID.
    pub fn parse_str(s: &str) -> (r: Option<Uuid>)
        ensures
            r matches Some(u) ==> uuid_parse_of(s@) == Some(u@),
            r is None <==> uuid_parse_of(s@) is None,
    {
        match parse_uuid_text(s) {
            Some(value) => Some(Uuid { value }),
            None => None,
        }
    }

    /// The hyphenated lowercase text of this UUID.
    pub fn to_text(&self) -> (r: String)
        ensures
            r@ == hyphenated_text(self@),
    {
        format_uuid(self.value)
    }
}

} // verus!
