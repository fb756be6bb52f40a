//! Identifiers of users and todos: UUIDs, held as their 128-bit value.
use vstd::arithmetic::power::pow;
use vstd::prelude::*;

verus! {

/// An identifier is the big-endian 128-bit value of a UUID.
pub type Id = u128;

/// The hexadecimal digit of the UUID that stands at place `k` of its 32,
/// counted from the most significant one.
pub open spec fn hex_digit(id: u128, k: int) -> char {
    "0123456789abcdef"@[(id as int / pow(16, (31 - k) as nat)) % 16]
}

/// The hyphenated text of the UUID with the given 128-bit value: its 32
/// hexadecimal digits in lower case, most significant first, in groups of 8,
/// 4, 4, 4 and 12 with a hyphen between two groups.
pub open spec fn uuid_text(id: u128) -> Seq<char> {
    Seq::new(
        36,
        |i: int|
            if i == 8 || i == 13 || i == 18 || i == 23 {
                '-'
            } else if i < 8 {
                hex_digit(id, i)
            } else if i < 13 {
                hex_digit(id, i - 1)
            } else if i < 18 {
                hex_digit(id, i - 2)
            } else if i < 23 {
                hex_digit(id, i - 3)
            } else {
                hex_digit(id, i - 4)
            },
    )
}

/// Draws a random (version 4) UUID with `uuid::Uuid::new_v4` and returns its
/// value as given by `uuid::Uuid::as_u128`. The result is random, so nothing
/// is claimed of it. The call does not return where the system has no random
/// bytes to give.
#[verifier::external_body]
pub(crate) fn random_id() -> (id: Id) {
    uuid::Uuid::new_v4().as_u128()
}

/// Formats the UUID built by `uuid::Uuid::from_u128` through its `Display`
/// impl. The contract claims that this is the hyphenated lower-case form of
/// the value, big end first, as `uuid_text` spells it out.
#[verifier::external_body]
pub(crate) fn format_id(id: Id) -> (text: String)
    ensures
        text@ == uuid_text(id),
{
    uuid::Uuid::from_u128(id).to_string()
}

} // verus!
