//! Values that come from the clock and the random source: timestamps and
//! fresh identifiers.

use vstd::prelude::*;
use crate::importer::{hex_lower, lemma_hex_lower_len};

verus! {

/// `c` is an ASCII decimal digit.
pub open spec fn is_digit(c: char) -> bool {
    '0' <= c && c <= '9'
}

/// Every character of `s` is an ASCII decimal digit.
pub open spec fn all_digits(s: Seq<char>) -> bool {
    forall|i: int| 0 <= i < s.len() ==> is_digit(#[trigger] s[i])
}

/// The year of an RFC 3339 timestamp: four digits, or for years past 9999
/// a `+` and at least five digits.
pub open spec fn is_year_text(y: Seq<char>) -> bool {
    ||| y.len() == 4 && all_digits(y)
    ||| y.len() >= 6 && y[0] == '+' && all_digits(y.drop_first())
}

/// The part after the year: `-MM-DDTHH:MM:SS`, each field two digits.
pub open spec fn is_date_time_text(t: Seq<char>) -> bool {
    &&& t.len() == 15
    &&& t[0] == '-' && t[3] == '-' && t[6] == 'T' && t[9] == ':' && t[12] == ':'
    &&& is_digit(t[1]) && is_digit(t[2]) && is_digit(t[4]) && is_digit(t[5])
    &&& is_digit(t[7]) && is_digit(t[8]) && is_digit(t[10]) && is_digit(t[11])
    &&& is_digit(t[13]) && is_digit(t[14])
}

/// The fraction of a second: none, or a `.` and 3, 6 or 9 digits.
pub open spec fn is_fraction_text(f: Seq<char>) -> bool {
    ||| f.len() == 0
    ||| (f.len() == 4 || f.len() == 7 || f.len() == 10) && f[0] == '.' && all_digits(
        f.drop_first(),
    )
}

/// `s` is an RFC 3339 timestamp in UTC as chrono writes it: year,
/// `-MM-DDTHH:MM:SS`, an optional fraction, and the offset `+00:00`.
pub open spec fn is_utc_rfc3339(s: Seq<char>) -> bool {
    exists|y: Seq<char>, t: Seq<char>, f: Seq<char>|
        is_year_text(y) && is_date_time_text(t) && is_fraction_text(f) && s == y + t + f
            + "+00:00"@
}

/// The current time as an RFC 3339 string: the system clock read as a
/// duration since the Unix epoch (`SystemTime::now`, `duration_since`),
/// made a `chrono::DateTime<Utc>` by `DateTime::from_timestamp`, then
/// written by `to_rfc3339`.  `None` when the clock reads before 1970 or
/// past chrono's range.  Which time comes back depends on the clock; the
/// contract states the shape that chrono's `write_rfc3339` gives every UTC
/// time (seconds format `AutoSi`, offset written with a colon and no `Z`).
#[verifier::external_body]
pub(crate) fn utc_now_rfc3339() -> (r: Option<String>)
    ensures
        r matches Some(t) ==> is_utc_rfc3339(t@),
{
    let since = std::time::SystemTime::now().duration_since(std::time::UNIX_EPOCH).ok()?;
    let secs = i64::try_from(since.as_secs()).ok()?;
    chrono::DateTime::from_timestamp(secs, since.subsec_nanos()).map(|t| t.to_rfc3339())
}

/// Sixteen random bytes from the operating system (`getrandom::fill`);
/// `None` when the random source fails.  Nothing is stated of the bytes.
#[verifier::external_body]
fn random_bytes_16() -> Option<[u8; 16]> {
    let mut bytes = [0u8; 16];
    getrandom::fill(&mut bytes).ok().map(|_| bytes)
}

/// The bytes of a version 4 UUID made of `b`: the high half of byte 6
/// becomes the version 4, the two high bits of byte 8 the RFC 4122
/// variant `10`.
pub open spec fn uuid_v4_bytes(b: Seq<u8>) -> Seq<u8> {
    b.update(6, (b[6] & 0x0fu8) | 0x40u8).update(8, (b[8] & 0x3fu8) | 0x80u8)
}

/// The hyphenated lowercase form of the 16 bytes of a UUID: hexadecimal
/// digits of bytes 0–3, 4–5, 6–7, 8–9 and 10–15, joined by hyphens.
pub open spec fn uuid_text(b: Seq<u8>) -> Seq<char> {
    hex_lower(b.subrange(0, 4)) + "-"@ + hex_lower(b.subrange(4, 6)) + "-"@ + hex_lower(
        b.subrange(6, 8),
    ) + "-"@ + hex_lower(b.subrange(8, 10)) + "-"@ + hex_lower(b.subrange(10, 16))
}

/// The version 4 UUID made of random `bytes`, displayed
/// (`uuid::Builder::from_random_bytes`, `into_uuid`, `to_string`): the
/// builder sets the version and variant bits, and `Display` writes the
/// hyphenated lowercase form.
#[verifier::external_body]
fn uuid_v4_text(bytes: [u8; 16]) -> (r: String)
    ensures
        r@ == uuid_text(uuid_v4_bytes(bytes@)),
{
    uuid::Builder::from_random_bytes(bytes).into_uuid().to_string()
}

/// A fresh random identifier: a version 4 UUID in its hyphenated form, 36
/// characters with hyphens at positions 8, 13, 18 and 23.  `None` when the
/// random source fails.
pub(crate) fn new_uuid_v4() -> (r: Option<String>)
    ensures
        r matches Some(t) ==> {
            &&& exists|b: Seq<u8>| b.len() == 16 && t@ == uuid_text(uuid_v4_bytes(b))
            &&& t@.len() == 36
            &&& t@[8] == '-' && t@[13] == '-' && t@[18] == '-' && t@[23] == '-'
        },
{
    match random_bytes_16() {
        Some(bytes) => {
            let t = uuid_v4_text(bytes);
            proof {
                let b = uuid_v4_bytes(bytes@);
                lemma_hex_lower_len(b.subrange(0, 4));
                lemma_hex_lower_len(b.subrange(4, 6));
                lemma_hex_lower_len(b.subrange(6, 8));
                lemma_hex_lower_len(b.subrange(8, 10));
                lemma_hex_lower_len(b.subrange(10, 16));
                reveal_strlit("-");
                assert(t@[8] == '-');
                assert(t@[13] == '-');
                assert(t@[18] == '-');
                assert(t@[23] == '-');
            }
            Some(t)
        },
        None => None,
    }
}

} // verus!
