//! Handoff identifiers: 128-bit values, written as hyphenated lower-case
//! hexadecimal.

use vstd::arithmetic::power::pow;
use vstd::prelude::*;
use vstd::string::StrSliceExecFns;

verus! {

/// The character that writes one hexadecimal digit, in lower case.
pub open spec fn hex_char(d: nat) -> char {
    if d == 0 {
        '0'
    } else if d == 1 {
        '1'
    } else if d == 2 {
        '2'
    } else if d == 3 {
        '3'
    } else if d == 4 {
        '4'
    } else if d == 5 {
        '5'
    } else if d == 6 {
        '6'
    } else if d == 7 {
        '7'
    } else if d == 8 {
        '8'
    } else if d == 9 {
        '9'
    } else if d == 10 {
        'a'
    } else if d == 11 {
        'b'
    } else if d == 12 {
        'c'
    } else if d == 13 {
        'd'
    } else if d == 14 {
        'e'
    } else {
        'f'
    }
}

/// The hexadecimal digit of `id` at position `k` counted from the most
/// significant, `0 <= k < 32`.
pub open spec fn hex_digit(id: u128, k: int) -> nat {
    ((id as int / pow(16, (31 - k) as nat)) % 16) as nat
}

/// The 32 hexadecimal digits of `id`, most significant first.
pub open spec fn simple_text(id: u128) -> Seq<char> {
    Seq::new(32, |k: int| hex_char(hex_digit(id, k)))
}

/// The hyphenated form of `id`: its 32 digits in groups of 8, 4, 4, 4 and
/// 12, with a hyphen between groups.
pub open spec fn hyphenated_text(id: u128) -> Seq<char> {
    let digits = simple_text(id);
    digits.subrange(0, 8) + seq!['-'] + digits.subrange(8, 12) + seq!['-'] + digits.subrange(
        12,
        16,
    ) + seq!['-'] + digits.subrange(16, 20) + seq!['-'] + digits.subrange(20, 32)
}

/// The short form of `id`: the first eight characters of its hyphenated
/// form, which are its eight most significant digits.
pub open spec fn short_text(id: u128) -> Seq<char> {
    hyphenated_text(id).subrange(0, 8)
}

/// `uuid::Uuid::new_v4` of uuid, as the 128-bit value that `Uuid::as_u128`
/// gives. uuid takes the randomness from the system, which it expects to
/// have some. The value is random: nothing is claimed of it.
#[verifier::external_body]
pub(crate) fn random_id() -> (r: u128) {
    uuid::Uuid::new_v4().as_u128()
}

/// The `Display` form of `uuid::Uuid`, on the identifier that
/// `Uuid::from_u128` makes of the value: the hyphenated lower-case form, 36
/// characters.
#[verifier::external_body]
pub(crate) fn hyphenated(id: u128) -> (r: String)
    ensures
        r@ == hyphenated_text(id),
{
    uuid::Uuid::from_u128(id).to_string()
}

/// The identifier that uuid reads from a text, or nothing where the text
/// is not an identifier in any of the forms that uuid writes.
pub uninterp spec fn parsed_id(text: Seq<char>) -> Option<u128>;

/// `uuid::Uuid::parse_str` of uuid, its result as the 128-bit value that
/// `Uuid::as_u128` gives. The contract names the identifier read.
#[verifier::external_body]
pub(crate) fn parse_id(text: &str) -> (r: Option<u128>)
    ensures
        r == parsed_id(text@),
{
    match uuid::Uuid::parse_str(text) {
        Ok(id) => Some(id.as_u128()),
        Err(_) => None,
    }
}

/// The short form of `id`, eight characters.
pub fn short_id(id: u128) -> (r: String)
    ensures
        r@ == short_text(id),
        r@.len() == 8,
{
    let full = hyphenated(id);
    assert(full@.len() == 36);
    full.as_str().substring_char(0, 8).to_owned()
}

} // verus!
