//! Identifiers of houses, rooms, devices and events: 128-bit UUID values,
//! generated and rendered by the `uuid` crate.

use vstd::prelude::*;

verus! {

/// The sixteen lowercase hexadecimal digits.
pub open spec fn hex_digits() -> Seq<char> {
    seq!['0', '1', '2', '3', '4', '5', '6', '7', '8', '9', 'a', 'b', 'c', 'd', 'e', 'f']
}

/// The `k`-th hexadecimal digit of `v`, counted from the most significant one.
pub open spec fn nibble(v: u128, k: int) -> int {
    ((v >> ((124 - 4 * k) as u128)) & 15u128) as int
}

/// How many hyphens stand before position `p` of the hyphenated form.
pub open spec fn hyphens_before(p: int) -> int {
    if p < 8 {
        0
    } else if p < 13 {
        1
    } else if p < 18 {
        2
    } else if p < 23 {
        3
    } else {
        4
    }
}

/// The hyphenated lowercase text of a UUID, such as
/// `67e55044-10b1-426f-9247-bb680e5fe0c8`: its 32 hexadecimal digits, most
/// significant first, in groups of 8, 4, 4, 4 and 12.
pub open spec fn hyphenated(v: u128) -> Seq<char> {
    Seq::new(
        36,
        |p: int|
            if p == 8 || p == 13 || p == 18 || p == 23 {
                '-'
            } else {
                hex_digits()[nibble(v, p - hyphens_before(p))]
            },
    )
}

/// Relies on `uuid::Uuid::new_v4`: a random identifier whose version field
/// is 4 and whose variant bits are `10`, as its source sets them.
#[verifier::external_body]
pub fn new_id() -> (r: u128)
    ensures
        (r >> 76u128) & 15u128 == 4u128,
        (r >> 62u128) & 3u128 == 2u128,
{
    uuid::Uuid::new_v4().as_u128()
}

/// Relies on the `Display` impl of `uuid::Uuid`, which writes the hyphenated
/// lowercase form of the value.
#[verifier::external_body]
pub fn id_text(id: u128) -> (r: String)
    ensures
        r@ == hyphenated(id),
{
    uuid::Uuid::from_u128(id).to_string()
}

} // verus!
