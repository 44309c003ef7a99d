//! Wall-clock time: the current time, and times of day as text.

use vstd::prelude::*;
use crate::text::digit_char;
use chrono::TimeZone;

verus! {

#[verifier::external_type_specification]
#[verifier::external_body]
pub struct ExSystemTime(std::time::SystemTime);

/// `SystemTime::now()`: the current system time. Nothing is known of it.
#[verifier::external_body]
pub(crate) fn system_time_now() -> std::time::SystemTime {
    std::time::SystemTime::now()
}

/// `t.duration_since(UNIX_EPOCH)` in whole seconds, or `None` when `t` lies
/// before the epoch. Nothing is known of the value: the time is opaque here.
#[verifier::external_body]
pub(crate) fn secs_since_epoch(t: &std::time::SystemTime) -> Option<u64> {
    t.duration_since(std::time::UNIX_EPOCH).ok().map(|d| d.as_secs())
}

/// The current time in whole seconds since the Unix epoch; 0 when the clock
/// reads a time before the epoch.
pub fn unix_time_secs() -> u64 {
    let now = system_time_now();
    match secs_since_epoch(&now) {
        Some(s) => s,
        None => 0,
    }
}

/// The first instant `chrono` has, in seconds since the Unix epoch:
/// -262143-01-01T00:00:00 UTC (`DateTime::<Utc>::MIN_UTC`).
pub const MIN_UTC_SECS: i64 = -8334601228800;

/// The last whole second `chrono` has, in seconds since the Unix epoch:
/// +262142-12-31T23:59:59 UTC (`DateTime::<Utc>::MAX_UTC`).
pub const MAX_UTC_SECS: i64 = 8210266876799;

/// Whether `chrono` has a UTC date and time for the instant `secs` seconds
/// after the Unix epoch, so that `Utc.timestamp_opt(secs, 0)` is not `None`:
/// its dates run from the year -262143 to the year 262142.
pub open spec fn chrono_utc_valid(secs: i64) -> bool {
    MIN_UTC_SECS <= secs <= MAX_UTC_SECS
}

/// Whether `chrono` has a UTC date and time for the instant `secs` seconds
/// after the Unix epoch.
pub fn utc_instant_exists(secs: i64) -> (r: bool)
    ensures
        r == chrono_utc_valid(secs),
{
    MIN_UTC_SECS <= secs && secs <= MAX_UTC_SECS
}

/// Whether `t` has the shape `HH:MM:SS`: three two-digit numbers with colons
/// between them.
pub open spec fn is_clock_text(t: Seq<char>) -> bool {
    &&& t.len() == 8
    &&& t[2] == ':' && t[5] == ':'
    &&& forall|i: int| 0 <= i < 8 && i != 2 && i != 5 ==> '0' <= #[trigger] t[i] <= '9'
}

/// `Utc.timestamp_opt(secs, 0)` shown in the machine's local time zone with
/// the format `%H:%M:%S`, where `chrono` has the instant. chrono documents
/// `%H`, `%M` and `%S` as zero-padded two-digit numbers, so the text has the
/// shape `HH:MM:SS`; which time of day it shows depends on the time zone and
/// is not stated.
#[verifier::external_body]
pub(crate) fn local_clock_text(secs: i64) -> (r: Option<String>)
    ensures
        r is Some <==> chrono_utc_valid(secs),
        r matches Some(t) ==> is_clock_text(t@),
{
    match chrono::Utc.timestamp_opt(secs, 0) {
        chrono::LocalResult::Single(dt) => Some(dt.with_timezone(&chrono::Local).format("%H:%M:%S").to_string()),
        chrono::LocalResult::Ambiguous(dt, _) => Some(dt.with_timezone(&chrono::Local).format("%H:%M:%S").to_string()),
        chrono::LocalResult::None => None,
    }
}

/// A number below 100 as two decimal digits.
pub open spec fn two_digits(n: int) -> Seq<char> {
    seq![digit_char(n / 10), digit_char(n % 10)]
}

/// The UTC time of day, `HH:MM:SS`, of the instant `secs` seconds after the epoch.
pub open spec fn clock_text(secs: nat) -> Seq<char> {
    two_digits(((secs / 3600) % 24) as int) + seq![':'] + two_digits(((secs / 60) % 60) as int)
        + seq![':'] + two_digits((secs % 60) as int)
}

/// `DateTime::<Utc>::from(UNIX_EPOCH + Duration::from_secs(secs)).format("%H:%M:%S")`:
/// the UTC time of day as zero-padded hours, minutes and seconds. The addition
/// would overflow past `i64::MAX` seconds, and the conversion unwraps
/// `Utc.timestamp_opt(secs, 0)` (chrono's source shows it), so it panics
/// where `chrono` has no date; both inputs are excluded.
#[verifier::external_body]
pub(crate) fn utc_clock_text(secs: u64) -> (r: String)
    requires
        secs <= i64::MAX,
        chrono_utc_valid(secs as i64),
    ensures
        r@ == clock_text(secs as nat),
{
    let t = std::time::UNIX_EPOCH + std::time::Duration::from_secs(secs);
    chrono::DateTime::<chrono::Utc>::from(t).format("%H:%M:%S").to_string()
}

/// The local time of day of `secs` seconds after the epoch, or
/// `<invalid-time>` when no such instant can be represented.
pub fn format_timestamp(secs: i64) -> (r: String)
    ensures
        chrono_utc_valid(secs) ==> is_clock_text(r@),
        !chrono_utc_valid(secs) ==> r@ == "<invalid-time>"@,
{
    match local_clock_text(secs) {
        Some(t) => t,
        None => String::from_str("<invalid-time>"),
    }
}

} // verus!
