//! Identifiers: a UUID is held as the `u128` that its sixteen bytes spell
//! in big-endian order, as `uuid::Uuid::as_u128` gives it.
use vstd::prelude::*;

verus! {

/// The lower-case hexadecimal digit of a value below sixteen.
pub open spec fn hex_digit(d: nat) -> char {
    if d < 10 {
        (48 + d) as char
    } else {
        (87 + d) as char
    }
}

/// The last `n` hexadecimal digits of `v`, most significant first.
pub open spec fn hex_digits(v: nat, n: nat) -> Seq<char>
    decreases n,
{
    if n == 0 {
        Seq::empty()
    } else {
        hex_digits(v / 16, (n - 1) as nat).push(hex_digit(v % 16))
    }
}

/// The hyphenated lower-case text of a UUID: 8-4-4-4-12 hexadecimal digits.
pub open spec fn uuid_text(u: u128) -> Seq<char> {
    let h = hex_digits(u as nat, 32);
    h.subrange(0, 8) + seq!['-'] + h.subrange(8, 12) + seq!['-'] + h.subrange(12, 16)
        + seq!['-'] + h.subrange(16, 20) + seq!['-'] + h.subrange(20, 32)
}

/// What `uuid::Uuid::parse_str` gives for a text: the UUID, or `None` when
/// the text is refused.
pub uninterp spec fn uuid_parse(s: Seq<char>) -> Option<u128>;

#[verifier::external_type_specification]
#[verifier::external_body]
pub struct ExUuidError(uuid::Error);

/// Calls `uuid::Uuid::parse_str`. Trusted: it succeeds exactly when
/// `uuid_parse` gives a UUID, and gives it, taken by `Uuid::as_u128`.
#[verifier::external_body]
pub fn parse_uuid(s: &str) -> (res: Result<u128, uuid::Error>)
    ensures
        res is Ok <==> uuid_parse(s@) is Some,
        res matches Ok(u) ==> uuid_parse(s@) == Some(u),
{
    uuid::Uuid::parse_str(s).map(|u| u.as_u128())
}

/// Calls `to_string` on `uuid::Uuid::from_u128(u)`. Trusted: `Display` of a
/// `Uuid` writes the hyphenated lower-case form, and `parse_str` reads that
/// form back to the same UUID.
#[verifier::external_body]
pub fn uuid_to_string(u: u128) -> (res: String)
    ensures
        res@ == uuid_text(u),
        uuid_parse(res@) == Some(u),
{
    uuid::Uuid::from_u128(u).to_string()
}

/// Calls `uuid::Uuid::new_v4()` and takes it by `Uuid::as_u128`. Trusted:
/// the bits are random but for the version nibble, which is 4, and the
/// variant bits, which are `10`, as the crate sets them.
#[verifier::external_body]
pub fn new_uuid_v4() -> (res: u128)
    ensures
        res & 0xF000_C000_0000_0000_0000u128 == 0x4000_8000_0000_0000_0000u128,
{
    uuid::Uuid::new_v4().as_u128()
}

} // verus!
