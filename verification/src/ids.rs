use vstd::prelude::*;
use vstd::arithmetic::power::pow;

verus! {

#[verifier::external_type_specification]
#[verifier::external_body]
pub struct ExUuidError(uuid::Error);

/// The 128-bit value that `uuid::Uuid::parse_str` reads from a text, where it accepts it.
pub uninterp spec fn uuid_parse(text: Seq<char>) -> Option<u128>;

/// The lower-case hexadecimal digit of a value below 16.
pub open spec fn hex_digit(n: int) -> char {
    if n < 10 {
        (48 + n) as char
    } else {
        (87 + n) as char
    }
}

/// The `k`-th hexadecimal digit of a 128-bit value, counted from the most significant one.
pub open spec fn nibble(v: u128, k: int) -> int {
    (v as int / pow(16, (31 - k) as nat)) % 16
}

/// The number of hyphens before position `p` of the hyphenated form.
pub open spec fn hyphens_before(p: int) -> int {
    if p < 8 {
        0
    } else if p < 13 {
        1
    } else if p < 18 {
        2
    } else if p < 23 {
        3
    } else {
        4
    }
}

/// The hyphenated lower-case form of a UUID: 32 hexadecimal digits in groups of 8, 4, 4, 4 and
/// 12, separated by hyphens.
pub open spec fn hyphenated(v: u128) -> Seq<char> {
    Seq::new(
        36,
        |p: int|
            if p == 8 || p == 13 || p == 18 || p == 23 {
                '-'
            } else {
                hex_digit(nibble(v, p - hyphens_before(p)))
            },
    )
}

/// Reads a UUID from text with `uuid::Uuid::parse_str` (which `Uuid::from_str` calls), giving its
/// 128-bit value, or uuid's error where the text is not a UUID.
#[verifier::external_body]
pub(crate) fn parse_uuid(text: &str) -> (r: Result<u128, uuid::Error>)
    ensures
        match r {
            Ok(v) => uuid_parse(text@) == Some(v),
            Err(_) => uuid_parse(text@) is None,
        },
{
    match uuid::Uuid::parse_str(text) {
        Ok(id) => Ok(id.as_u128()),
        Err(e) => Err(e),
    }
}

/// The text of a UUID (`Uuid::to_string`): its hyphenated lower-case form, which
/// `Uuid::parse_str` reads back to the same value.
#[verifier::external_body]
pub(crate) fn uuid_text(v: u128) -> (text: String)
    ensures
        text@ == hyphenated(v),
        uuid_parse(text@) == Some(v),
{
    uuid::Uuid::from_u128(v).to_string()
}

/// A fresh random UUID (`Uuid::new_v4`, which fails only where the operating system gives no
/// random bytes). Of its value only the version and variant bits are stated: version 4 and the
/// RFC 4122 variant; the other 122 bits are random.
#[verifier::external_body]
pub(crate) fn new_uuid() -> (v: u128)
    ensures
        (v as int / pow(2, 76)) % 16 == 4,
        (v as int / pow(2, 62)) % 4 == 2,
{
    uuid::Uuid::new_v4().as_u128()
}

} // verus!
