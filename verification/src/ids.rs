//! Identifiers of students and users: 128-bit values, written as text in the
//! hyphenated form.

use vstd::prelude::*;
use vstd::arithmetic::power::pow;
use crate::text::hex_digit;

verus! {

/// The 32 lower-case hexadecimal digits of an identifier, most significant
/// first.
pub open spec fn simple_hex(id: u128) -> Seq<char> {
    Seq::new(32, |i: int| hex_digit((id as int / pow(16, (31 - i) as nat)) % 16))
}

/// An identifier in the hyphenated form: its digits in groups of 8, 4, 4, 4
/// and 12.
pub open spec fn hyphenated(id: u128) -> Seq<char> {
    let digits = simple_hex(id);
    digits.subrange(0, 8) + "-"@ + digits.subrange(8, 12) + "-"@ + digits.subrange(12, 16) + "-"@
        + digits.subrange(16, 20) + "-"@ + digits.subrange(20, 32)
}

/// The identifier that a text stands for, as `uuid::Uuid::parse_str` reads
/// it, if it reads one.
pub uninterp spec fn parsed_uuid(text: Seq<char>) -> Option<u128>;

/// Trusted: makes a `uuid::Uuid` of the value with `from_u128`, which takes
/// it most significant byte first, and formats it with `to_string`, which
/// writes the hyphenated lower-case form.
#[verifier::external_body]
pub(crate) fn uuid_to_string(id: u128) -> (r: String)
    ensures
        r@ == hyphenated(id),
{
    uuid::Uuid::from_u128(id).to_string()
}

/// Trusted: calls `uuid::Uuid::parse_str`; the value of what it read, if it
/// read an identifier, is named `parsed_uuid` of the text.
#[verifier::external_body]
pub(crate) fn parse_uuid(text: &str) -> (r: Option<u128>)
    ensures
        r == parsed_uuid(text@),
{
    uuid::Uuid::parse_str(text).ok().map(|id| id.as_u128())
}

/// Trusted: calls `uuid::Uuid::new_v4`, a random identifier of which nothing
/// is promised. Where the operating system has no random numbers to give the
/// call panics.
#[verifier::external_body]
pub(crate) fn random_uuid() -> u128 {
    uuid::Uuid::new_v4().as_u128()
}

} // verus!
