//! The `Expires` header of a served token: the wall-clock moment at which the
//! token stops being valid, written as an RFC 2822 date.

use crate::clock::NANOS_PER_SEC;
use vstd::prelude::*;

verus! {

/// The first second that RFC 2822 can write: the start of the year 0.
pub const RFC2822_MIN_SECS: i64 = -62_167_219_200;

/// The last second that RFC 2822 can write: the end of the year 9999.
pub const RFC2822_MAX_SECS: i64 = 253_402_300_799;

/// The RFC 2822 date, in UTC, of the moment `secs` seconds after the start of
/// 1970, as `chrono` writes it.
pub uninterp spec fn rfc2822_text(secs: int) -> Seq<char>;

/// Whether RFC 2822 can write the moment `secs` seconds after the start of
/// 1970: its year has to lie between 0 and 9999.
pub open spec fn printable(secs: int) -> bool {
    RFC2822_MIN_SECS <= secs <= RFC2822_MAX_SECS
}

/// The second in which a token expires that is valid for `remaining` more
/// nanoseconds when the wall clock reads `wall_secs` seconds and `wall_nanos`
/// nanoseconds.
pub open spec fn expiry_second(wall_secs: int, wall_nanos: int, remaining: int) -> int {
    wall_secs + (wall_nanos + remaining) / (NANOS_PER_SEC as int)
}

/// `DateTime::<Utc>::to_rfc2822`, on the moment that `DateTime::from_timestamp`
/// makes of `secs` whole seconds. Within the years 0 to 9999 `from_timestamp`
/// accepts every second and the formatter does not fail, so there is always a
/// text; it depends on `secs` alone. It is not proved here what that text is.
#[verifier::external_body]
fn format_rfc2822(secs: i64) -> (text: Option<String>)
    requires
        printable(secs as int),
    ensures
        text is Some,
        text.unwrap()@ == rfc2822_text(secs as int),
{
    match chrono::DateTime::from_timestamp(secs, 0) {
        Some(moment) => Some(moment.to_rfc2822()),
        None => None,
    }
}

/// Computes the second in which a token expires, from a reading of the wall
/// clock and the validity the token has left. There is none where the
/// reading is not a proper one, with a full second or more in `wall_nanos`,
/// or where the expiry lies outside the years that RFC 2822 can write.
pub fn expiry_wall_second(wall_secs: i64, wall_nanos: u32, remaining: u64) -> (second: Option<i64>)
    ensures
        second is Some <==> wall_nanos < NANOS_PER_SEC && printable(
            expiry_second(wall_secs as int, wall_nanos as int, remaining as int),
        ),
        second matches Some(secs) ==> secs == expiry_second(
            wall_secs as int,
            wall_nanos as int,
            remaining as int,
        ),
{
    if wall_nanos as u64 >= NANOS_PER_SEC {
        return None;
    }
    let whole: u64 = remaining / NANOS_PER_SEC;
    let part: u64 = remaining % NANOS_PER_SEC;
    let carry: u64 = (wall_nanos as u64 + part) / NANOS_PER_SEC;
    let secs: i128 = wall_secs as i128 + (whole + carry) as i128;
    if secs < RFC2822_MIN_SECS as i128 || secs > RFC2822_MAX_SECS as i128 {
        None
    } else {
        Some(secs as i64)
    }
}

/// Writes the value of the `Expires` header for a token that is valid for
/// `remaining` more nanoseconds when the wall clock reads `wall_secs` seconds
/// and `wall_nanos` nanoseconds.
pub fn expires_header(wall_secs: i64, wall_nanos: u32, remaining: u64) -> (header: Option<String>)
    ensures
        header is Some <==> wall_nanos < NANOS_PER_SEC && printable(
            expiry_second(wall_secs as int, wall_nanos as int, remaining as int),
        ),
        header matches Some(text) ==> text@ == rfc2822_text(
            expiry_second(wall_secs as int, wall_nanos as int, remaining as int),
        ),
{
    match expiry_wall_second(wall_secs, wall_nanos, remaining) {
        Some(secs) => format_rfc2822(secs),
        None => None,
    }
}

} // verus!
