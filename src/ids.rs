//! Note identifiers: random version-4 UUIDs, held as their 128-bit value so
//! that the ascending-id order of the table is the order of integers.

use vstd::arithmetic::power2::pow2;
use vstd::prelude::*;

verus! {

/// The lower-case hex digit of a value below 16.
pub open spec fn hex_digit(n: int) -> char {
    seq!['0', '1', '2', '3', '4', '5', '6', '7', '8', '9', 'a', 'b', 'c', 'd', 'e', 'f'][n]
}

/// Whether position `p` of the hyphenated text holds a hyphen.
pub open spec fn is_hyphen_position(p: int) -> bool {
    p == 8 || p == 13 || p == 18 || p == 23
}

/// How many hyphens stand before position `p` of the hyphenated text.
pub open spec fn hyphens_before(p: int) -> int {
    if p <= 8 {
        0
    } else if p <= 13 {
        1
    } else if p <= 18 {
        2
    } else if p <= 23 {
        3
    } else {
        4
    }
}

/// The `k`-th hex nibble of `id`, counted from the most significant.
pub open spec fn nibble(id: u128, k: int) -> int {
    ((id as int) / pow2(4 * (31 - k) as nat) as int) % 16
}

/// The hyphenated lower-case text of the UUID with value `id`: its 32 hex
/// digits, most significant first, in groups of 8, 4, 4, 4 and 12.
pub open spec fn uuid_text(id: u128) -> Seq<char> {
    Seq::new(
        36,
        |p: int|
            if is_hyphen_position(p) {
                '-'
            } else {
                hex_digit(nibble(id, p - hyphens_before(p)))
            },
    )
}

/// A version-4 UUID value of the RFC 4122 variant: version nibble 4,
/// variant bits `10`.
pub open spec fn is_v4_id(id: u128) -> bool {
    (id >> 76u128) & 0xfu128 == 4 && (id >> 62u128) & 0x3u128 == 2
}

/// Relies on uuid::Uuid::new_v4 and Uuid::as_u128: a random value whose
/// version nibble is 4 and whose variant bits are `10`.
#[verifier::external_body]
pub(crate) fn new_note_id() -> (r: u128)
    ensures
        is_v4_id(r),
{
    uuid::Uuid::new_v4().as_u128()
}

/// Relies on uuid::Uuid::from_u128 and the `Display` of its hyphenated form:
/// the 36-character text `xxxxxxxx-xxxx-xxxx-xxxx-xxxxxxxxxxxx` of the value.
#[verifier::external_body]
pub(crate) fn note_id_text(id: u128) -> (r: String)
    ensures
        r@ == uuid_text(id),
        r@.len() == 36,
{
    uuid::Uuid::from_u128(id).hyphenated().to_string()
}

} // verus!
