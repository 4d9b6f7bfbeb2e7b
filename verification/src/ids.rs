use vstd::prelude::*;
use vstd::arithmetic::power::pow;

verus! {

/// The lower-case hexadecimal digit of `n` (0 <= n < 16).
pub open spec fn hex_digit(n: int) -> char {
    seq!['0', '1', '2', '3', '4', '5', '6', '7', '8', '9', 'a', 'b', 'c', 'd', 'e', 'f'][n]
}

/// The `k`-th of the 32 hexadecimal digits of `id`, most significant first.
pub open spec fn uuid_nibble(id: u128, k: int) -> int {
    (id as int / pow(16, (31 - k) as nat)) % 16
}

/// Where the hyphenated form puts its four hyphens.
pub open spec fn is_hyphen_position(i: int) -> bool {
    i == 8 || i == 13 || i == 18 || i == 23
}

/// Which hexadecimal digit stands at position `i` of the hyphenated form.
pub open spec fn digit_at(i: int) -> int {
    if i < 8 {
        i
    } else if i < 13 {
        i - 1
    } else if i < 18 {
        i - 2
    } else if i < 23 {
        i - 3
    } else {
        i - 4
    }
}

/// The canonical text of a UUID: lower-case, hyphenated 8-4-4-4-12.
pub open spec fn uuid_text(id: u128) -> Seq<char> {
    Seq::new(
        36,
        |i: int|
            if is_hyphen_position(i) {
                '-'
            } else {
                hex_digit(uuid_nibble(id, digit_at(i)))
            },
    )
}

/// The UUID that `uuid::Uuid::parse_str` reads from a text, if it accepts it.
pub uninterp spec fn uuid_parse(text: Seq<char>) -> Option<u128>;

/// Calls `uuid::Uuid::from_u128(id).to_string()`. Trusted: the result is the
/// lower-case hyphenated form (the crate's `Display` is `LowerHex` of the
/// hyphenated encoding), and `parse_str` reads it back to the same id
/// (the crate documents that it parses every format it generates).
#[verifier::external_body]
pub(crate) fn format_uuid(id: u128) -> (text: String)
    ensures
        text@ == uuid_text(id),
        uuid_parse(text@) == Some(id),
{
    uuid::Uuid::from_u128(id).to_string()
}

/// Calls `uuid::Uuid::parse_str`. Trusted: the result is `uuid_parse` of the
/// text; which texts the crate accepts is left to that name.
#[verifier::external_body]
pub(crate) fn parse_uuid(text: &str) -> (id: Option<u128>)
    ensures
        id == uuid_parse(text@),
{
    match uuid::Uuid::parse_str(text) {
        Ok(u) => Some(u.as_u128()),
        Err(_) => None,
    }
}

/// Calls `uuid::Uuid::new_v4`. The id is random; what is stated is what
/// the crate sets on every such id: version 4 in the high nibble of byte 6
/// and the RFC 4122 variant (`10`) in the top bits of byte 8.
#[verifier::external_body]
pub(crate) fn random_uuid() -> (id: u128)
    ensures
        (id >> 76u128) & 0xfu128 == 4,
        (id >> 62u128) & 0x3u128 == 2,
{
    uuid::Uuid::new_v4().as_u128()
}

/// The largest Unix timestamp (in seconds) that `chrono` represents: the
/// last second of the year 262142.
pub open spec fn max_timestamp() -> int {
    8_210_266_876_799
}

/// Calls `chrono::Utc::now().timestamp()`. The clock is read, so its value
/// is not stated; what is stated is the range of every value it returns:
/// `Utc::now` panics on a clock before the Unix epoch and on one beyond the
/// range of `DateTime` (`from_timestamp(..).unwrap()`).
#[verifier::external_body]
pub(crate) fn unix_now() -> (secs: i64)
    ensures
        0 <= secs <= max_timestamp(),
{
    chrono::Utc::now().timestamp()
}

} // verus!
