//! Calls into the clock, the random UUID generator, UUID and calendar-date
//! formatting (the `uuid` and `chrono` crates) and SHA-256 (the `sha2` crate).

use sha2::Digest;
use vstd::prelude::*;

verus! {

/// The current instant in microseconds since the Unix epoch; wraps
/// `chrono::Utc::now().timestamp_micros()`. Nothing is promised of the value.
#[verifier::external_body]
pub(crate) fn now_micros() -> i64 {
    chrono::Utc::now().timestamp_micros()
}

/// A fresh random version-4 UUID as its 128-bit value; wraps
/// `uuid::Uuid::new_v4().as_u128()`. The value is random; the crate sets the
/// version nibble to 4 and the variant bits to `10`.
#[verifier::external_body]
pub(crate) fn new_uuid() -> (id: u128)
    ensures
        (id >> 76u128) & 0xfu128 == 4,
        (id >> 62u128) & 0x3u128 == 2,
{
    uuid::Uuid::new_v4().as_u128()
}

/// The lower-case hexadecimal digit for `n`.
pub open spec fn hex_digit(n: int) -> char {
    if n < 10 {
        ((n + 48) as u32) as char
    } else {
        ((n + 87) as u32) as char
    }
}

/// The `k`-th hexadecimal digit of `id`, most significant first.
pub open spec fn nibble(id: u128, k: int) -> int {
    ((id as int) / pow16(31 - k)) % 16
}

pub open spec fn pow16(e: int) -> int
    decreases e,
{
    if e <= 0 {
        1
    } else {
        16 * pow16(e - 1)
    }
}

/// The 32 lower-case hexadecimal digits of a UUID.
pub open spec fn uuid_simple_text(id: u128) -> Seq<char> {
    Seq::new(32, |k: int| hex_digit(nibble(id, k)))
}

/// The hyphenated lower-case text of a UUID, `8-4-4-4-12` digits, as
/// `uuid::Uuid` displays and serializes it.
pub open spec fn uuid_text(id: u128) -> Seq<char> {
    let d = uuid_simple_text(id);
    d.subrange(0, 8) + seq!['-'] + d.subrange(8, 12) + seq!['-'] + d.subrange(12, 16) + seq!['-']
        + d.subrange(16, 20) + seq!['-'] + d.subrange(20, 32)
}

/// The hyphenated text of a UUID; wraps `uuid::Uuid::from_u128(id).to_string()`.
/// The crate writes the sixteen big-endian bytes as lower-case hexadecimal
/// pairs with hyphens after the fourth, sixth, eighth and tenth byte.
#[verifier::external_body]
pub(crate) fn uuid_to_text(id: u128) -> (s: String)
    ensures
        s@ == uuid_text(id),
{
    uuid::Uuid::from_u128(id).to_string()
}

/// The 32 digits of a UUID without hyphens; wraps
/// `uuid::Uuid::from_u128(id).simple().to_string()`.
#[verifier::external_body]
pub(crate) fn uuid_to_simple_text(id: u128) -> (s: String)
    ensures
        s@ == uuid_simple_text(id),
{
    uuid::Uuid::from_u128(id).simple().to_string()
}

/// The `%Y-%m-%d` text that `chrono` writes for the proleptic Gregorian date
/// with the given day number (0001-01-01 is day 1).
pub uninterp spec fn iso_date_text(days: i32) -> Seq<char>;

/// Whether a day number (0001-01-01 is day 1) lies in chrono's calendar,
/// which runs from -262143-01-01 (day -95746129) to +262142-12-31
/// (day 95745399).
pub open spec fn in_calendar(days: int) -> bool {
    -95_746_129 <= days <= 95_745_399
}

/// The text of a calendar date; wraps
/// `chrono::NaiveDate::from_num_days_from_ce_opt(days)` and its `to_string`,
/// which has a date exactly for the day numbers of chrono's calendar.
#[verifier::external_body]
pub(crate) fn date_to_text(days: i32) -> (s: Option<String>)
    ensures
        s is Some <==> in_calendar(days as int),
        s matches Some(t) ==> t@ == iso_date_text(days),
{
    chrono::NaiveDate::from_num_days_from_ce_opt(days).map(|d| d.to_string())
}

/// The SHA-256 digest of a byte sequence.
pub uninterp spec fn sha256(data: Seq<u8>) -> Seq<u8>;

/// SHA-256 of the bytes; wraps `<sha2::Sha256 as Digest>::digest`. The digest
/// is 32 bytes long.
#[verifier::external_body]
pub(crate) fn sha256_digest(data: &[u8]) -> (d: Vec<u8>)
    ensures
        d@ == sha256(data@),
        d@.len() == 32,
{
    <sha2::Sha256 as Digest>::digest(data).to_vec()
}

} // verus!
