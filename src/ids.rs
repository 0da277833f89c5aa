use vstd::arithmetic::power::pow;
use vstd::prelude::*;
use vstd::string::StringExecFns;

use crate::error::SMSManagerError;

verus! {

/// The 128-bit value that the text `s` denotes as a UUID, if it is one in a
/// form that the uuid crate accepts (simple, hyphenated, braced or URN).
pub uninterp spec fn uuid_value_of(s: Seq<char>) -> Option<u128>;

/// The lower-case hexadecimal digit for `d` in `[0, 16)`.
pub open spec fn hex_digit_char(d: int) -> char {
    "0123456789abcdef"@[d]
}

/// The `k`-th of the 32 hexadecimal digits of `v`, the most significant first.
pub open spec fn nibble(v: u128, k: int) -> int {
    (v as int / pow(16, (31 - k) as nat)) % 16
}

/// Where the hyphenated form puts its four hyphens.
pub open spec fn is_hyphen_position(i: int) -> bool {
    i == 8 || i == 13 || i == 18 || i == 23
}

/// Which digit stands at position `i` of the hyphenated form.
pub open spec fn digit_at(i: int) -> int {
    i - if i > 23 {
        4int
    } else if i > 18 {
        3int
    } else if i > 13 {
        2int
    } else if i > 8 {
        1int
    } else {
        0int
    }
}

/// The lower-case hyphenated text of the UUID with value `v`: its 32 digits
/// in groups of 8, 4, 4, 4 and 12, joined by hyphens.
pub open spec fn uuid_text_of(v: u128) -> Seq<char> {
    Seq::new(
        36,
        |i: int|
            if is_hyphen_position(i) {
                '-'
            } else {
                hex_digit_char(nibble(v, digit_at(i)))
            },
    )
}

/// Relies on `uuid::Uuid::parse_str` and `Uuid::as_u128`: the parse depends on
/// the text alone, and only texts of 32, 36, 38 or 45 characters can parse.
#[verifier::external_body]
fn uuid_parse(s: &str) -> (r: Option<u128>)
    ensures
        r == uuid_value_of(s@),
        !(s@.len() == 32 || s@.len() == 36 || s@.len() == 38 || s@.len() == 45) ==> r.is_none(),
{
    uuid::Uuid::parse_str(s).ok().map(|u| u.as_u128())
}

/// Relies on `uuid::Uuid::from_u128`, which reads `v` as big-endian bytes,
/// and its `Display` impl, which writes the lower-case hyphenated form.
#[verifier::external_body]
pub(crate) fn uuid_text(v: u128) -> (r: String)
    ensures
        r@ == uuid_text_of(v),
{
    uuid::Uuid::from_u128(v).to_string()
}

pub open spec fn invalid_id_reason() -> Seq<char> {
    "Producer Id Is Invalid"@
}

/// Reads an identifier. Any text that is not a UUID is refused with
/// `InvalidEncoding("Producer Id Is Invalid")`.
pub fn parse_uuid(val: &str) -> (r: Result<u128, SMSManagerError>)
    ensures
        match uuid_value_of(val@) {
            Some(v) => r == Ok::<u128, SMSManagerError>(v),
            None => r matches Err(SMSManagerError::InvalidEncoding(m)) && m@ == invalid_id_reason(),
        },
        val@.len() == 0 ==> r.is_err(),
{
    match uuid_parse(val) {
        Some(v) => Ok(v),
        None => Err(SMSManagerError::InvalidEncoding(String::from_str("Producer Id Is Invalid"))),
    }
}

} // verus!
