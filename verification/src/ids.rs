//! Entity identifiers.
//!
//! Every entity is identified by a UUID; the library holds it as the UUID's
//! 128-bit big-endian value and turns it into text and back through `uuid`.

use vstd::prelude::*;

verus! {

/// A UUID held as its 128-bit big-endian value.
pub type EntityId = u128;

/// Lowercase hexadecimal digit for `n < 16`.
pub open spec fn hex_digit(n: nat) -> char {
    if n < 10 {
        (48 + n) as char
    } else {
        (87 + n) as char
    }
}

/// The `k` least significant hexadecimal digits of `v`, most significant first.
pub open spec fn hex_digits(v: nat, k: nat) -> Seq<char>
    decreases k,
{
    if k == 0 {
        Seq::empty()
    } else {
        hex_digits(v / 16, (k - 1) as nat).push(hex_digit(v % 16))
    }
}

/// The hyphenated lowercase text of a UUID: 32 hex digits grouped 8-4-4-4-12.
pub open spec fn uuid_text(id: EntityId) -> Seq<char> {
    let h = hex_digits(id as nat, 32);
    h.subrange(0, 8) + seq!['-'] + h.subrange(8, 12) + seq!['-'] + h.subrange(12, 16) + seq!['-']
        + h.subrange(16, 20) + seq!['-'] + h.subrange(20, 32)
}

/// `id` is a version-4 (random) UUID: version nibble 4, variant bits `10`.
pub open spec fn is_version_four(id: EntityId) -> bool {
    id & 0xF000_C000_0000_0000_0000u128 == 0x4000_8000_0000_0000_0000u128
}

/// What `uuid::Uuid::parse_str` makes of a text, as a 128-bit value.
pub uninterp spec fn uuid_parse(text: Seq<char>) -> Option<EntityId>;

/// Calls `uuid::Uuid::parse_str`. The contract names the outcome `uuid_parse`
/// of the text and states one fact read from the crate's parser: the
/// hyphenated lowercase text of a value parses back to that value. The other
/// accepted layouts (simple, braced, URN, upper case) are left unsaid.
#[verifier::external_body]
pub(crate) fn parse_uuid_text(text: &str) -> (r: Option<EntityId>)
    ensures
        r == uuid_parse(text@),
        forall|v: EntityId| text@ == uuid_text(v) ==> r == Some(v),
{
    match uuid::Uuid::parse_str(text) {
        Ok(u) => Some(u.as_u128()),
        Err(_) => None,
    }
}

/// Calls `Uuid::to_string` (its `Display`), which writes the hyphenated
/// lowercase form; the contract states that form exactly.
#[verifier::external_body]
pub(crate) fn uuid_to_text(id: EntityId) -> (s: String)
    ensures
        s@ == uuid_text(id),
{
    uuid::Uuid::from_u128(id).to_string()
}

/// Calls `uuid::Uuid::new_v4`. The value is random; what holds of every
/// outcome is that the version nibble is 4 and the two variant bits are `10`,
/// which the crate forces by masking the random value and setting
/// `0x4000_8000_0000_0000_0000`.
#[verifier::external_body]
pub(crate) fn new_random_id() -> (id: EntityId)
    ensures
        is_version_four(id),
{
    uuid::Uuid::new_v4().as_u128()
}

/// Parses an optional database column into an identifier: a missing value or
/// one that `uuid` rejects both give `None`.
pub fn parse_uuid_opt(s: Option<String>) -> (r: Option<EntityId>)
    ensures
        r == match s {
            None => None,
            Some(v) => uuid_parse(v@),
        },
{
    match s {
        None => None,
        Some(v) => parse_uuid_text(v.as_str()),
    }
}

} // verus!
