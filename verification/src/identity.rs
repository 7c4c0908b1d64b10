//! Worker identities (random version-4 UUIDs, stored in their hyphenated
//! text form) and the wall clock that stamps tasks.
use vstd::arithmetic::power2::pow2;
use vstd::prelude::*;

verus! {

/// The lowercase hexadecimal digit of a value below 16.
pub open spec fn hex_lower(n: int) -> char {
    if n < 10 {
        (48 + n) as char
    } else {
        (87 + n) as char
    }
}

/// The `k`-th of the 32 hexadecimal digits of `u`, most significant first.
pub open spec fn uuid_nibble(u: u128, k: int) -> int {
    (u as int / pow2((4 * (31 - k)) as nat) as int) % 16
}

/// The 32 lowercase hexadecimal digits of `u`.
pub open spec fn uuid_simple(u: u128) -> Seq<char> {
    Seq::new(32, |k: int| hex_lower(uuid_nibble(u, k)))
}

/// The hyphenated text of a UUID: its digits in groups of 8, 4, 4, 4 and 12.
pub open spec fn uuid_hyphenated(u: u128) -> Seq<char> {
    let s = uuid_simple(u);
    s.subrange(0, 8) + seq!['-'] + s.subrange(8, 12) + seq!['-'] + s.subrange(12, 16) + seq!['-']
        + s.subrange(16, 20) + seq!['-'] + s.subrange(20, 32)
}

/// A random UUID marks itself as version 4 and of the RFC 4122 variant:
/// its 13th digit is 4 and the top two bits of its 17th digit are `10`.
pub open spec fn is_random_uuid(u: u128) -> bool {
    &&& uuid_nibble(u, 12) == 4
    &&& uuid_nibble(u, 16) / 4 == 2
}

/// Calls `uuid::Uuid::new_v4` and returns the UUID as its 128-bit big-endian
/// value. The value is random; claimed only are the version and variant
/// bits that `new_v4` sets on every value.
#[verifier::external_body]
pub(crate) fn random_uuid() -> (u: u128)
    ensures
        is_random_uuid(u),
{
    uuid::Uuid::new_v4().as_u128()
}

/// The UUID that `uuid::Uuid::parse_str` reads from `text`, as its 128-bit
/// big-endian value, or `None` where it refuses the text.
pub uninterp spec fn uuid_parsed(text: Seq<char>) -> Option<u128>;

/// Calls `ToString::to_string` on `uuid::Uuid::from_u128(u)`. Claimed: the
/// result is the lowercase hyphenated text of `u`, and `parse_str` reads `u`
/// back from it.
#[verifier::external_body]
pub(crate) fn uuid_text(u: u128) -> (s: String)
    ensures
        s@ == uuid_hyphenated(u),
        uuid_parsed(s@) == Some(u),
{
    uuid::Uuid::from_u128(u).to_string()
}

/// Calls `uuid::Uuid::parse_str` and returns the UUID as its 128-bit
/// big-endian value. Claimed: the result is `uuid_parsed` of the text,
/// `None` where `parse_str` returns an error.
#[verifier::external_body]
pub(crate) fn parse_uuid(text: &str) -> (u: Option<u128>)
    ensures
        u == uuid_parsed(text@),
{
    match uuid::Uuid::parse_str(text) {
        Ok(u) => Some(u.as_u128()),
        Err(_) => None,
    }
}

/// Calls `chrono::Utc::now().timestamp()`: the current time in seconds since
/// the Unix epoch. Nothing is claimed of the value.
#[verifier::external_body]
pub(crate) fn now_timestamp() -> (t: i64) {
    chrono::Utc::now().timestamp()
}

/// The text of a random UUID is 36 characters long, with hyphens at
/// positions 8, 13, 18 and 23 and the version digit `4` at position 14.
pub proof fn lemma_random_uuid_text(u: u128)
    requires
        is_random_uuid(u),
    ensures
        uuid_hyphenated(u).len() == 36,
        uuid_hyphenated(u)[8] == '-',
        uuid_hyphenated(u)[13] == '-',
        uuid_hyphenated(u)[18] == '-',
        uuid_hyphenated(u)[23] == '-',
        uuid_hyphenated(u)[14] == '4',
{
    let s = uuid_simple(u);
    assert(uuid_hyphenated(u)[14] == s[12]);
}

} // verus!
