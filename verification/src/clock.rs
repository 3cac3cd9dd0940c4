//! The civil-time boundary: timestamps are milliseconds since the Unix
//! epoch; what depends on the machine's clock or time zone (the time now,
//! the local calendar date of a timestamp) comes through trusted wrappers,
//! and everything computed from their plain results is verified.

use vstd::prelude::*;
use crate::text::{dec_str, u64_to_string};
use chrono::{Datelike, TimeZone, Timelike};

verus! {

/// The largest timestamp the civil-time wrappers accept: the last
/// millisecond of the year 9999, less one day of margin so that no
/// time-zone offset can push the local date past the ranges of the
/// calendar library and of RFC 2822 rendering.
pub const MAX_CIVIL_MILLIS: u64 = 253_402_214_399_999;

/// A timestamp together with its local civil reading: the calendar date
/// and the time of day, as the machine's time zone gives them.
#[derive(Clone, Copy, Debug, PartialEq, Eq, Structural)]
pub struct CivilStamp {
    /// Milliseconds since the Unix epoch.
    pub millis: u64,
    /// Local calendar year.
    pub year: i32,
    /// Local calendar month, `1 ..= 12`.
    pub month: u8,
    /// Local calendar day of month, `1 ..= 31`.
    pub day: u8,
    /// Local hour of day, `0 ..= 23`.
    pub hour: u8,
    /// Local minute, `0 ..= 59`.
    pub minute: u8,
    /// Local second, `0 ..= 59`.
    pub second: u8,
}

impl CivilStamp {
    /// The field ranges every civil reading satisfies.
    pub open spec fn wf(&self) -> bool {
        &&& 1 <= self.month <= 12
        &&& 1 <= self.day <= 31
        &&& self.hour <= 23
        &&& self.minute <= 59
        &&& self.second <= 59
    }
}

/// Whether two civil readings fall on the same local calendar date.
pub open spec fn same_civil_day(a: CivilStamp, b: CivilStamp) -> bool {
    a.year == b.year && a.month == b.month && a.day == b.day
}

/// Decides [`same_civil_day`].
pub fn same_day(a: &CivilStamp, b: &CivilStamp) -> (r: bool)
    ensures
        r == same_civil_day(*a, *b),
{
    a.year == b.year && a.month == b.month && a.day == b.day
}

/// The milliseconds from local midnight to the time of day of `c`,
/// at whole-second precision.
pub open spec fn msm(c: CivilStamp) -> u64 {
    (c.hour as u64 * 3_600_000 + c.minute as u64 * 60_000 + c.second as u64 * 1_000) as u64
}

/// Computes [`msm`]: milliseconds since the local midnight of `c`.
pub fn millis_since_midnight(c: &CivilStamp) -> (r: u64)
    ensures
        r == msm(*c),
{
    c.hour as u64 * 3_600_000 + c.minute as u64 * 60_000 + c.second as u64 * 1_000
}

/// The milliseconds of the system clock since the Unix epoch.
///
/// Relies on `std::time::SystemTime::now` and
/// `SystemTime::duration_since(UNIX_EPOCH)`: a clock before the epoch
/// reads as zero. Nothing is promised of the result: every caller must
/// hold for any value.
#[verifier::external_body]
pub fn since_unix() -> u64 {
    match std::time::SystemTime::now().duration_since(std::time::UNIX_EPOCH) {
        Ok(d) => u64::try_from(d.as_millis()).unwrap_or(u64::MAX),
        Err(_) => 0,
    }
}

/// The local civil reading of a timestamp.
///
/// Relies on chrono: `Utc.timestamp_millis_opt` is `Single` for every
/// count of milliseconds up to [`MAX_CIVIL_MILLIS`], `with_timezone`
/// reinterprets the instant in the machine's time zone, and the
/// `Datelike` / `Timelike` accessors return a month in `1..=12`, a day
/// in `1..=31`, an hour up to 23, and a minute and second up to 59.
/// The date and time-of-day fields depend on the machine's time zone,
/// so nothing more is promised of them.
#[verifier::external_body]
pub fn convert(millis: u64) -> (c: CivilStamp)
    requires
        millis <= MAX_CIVIL_MILLIS,
    ensures
        c.millis == millis,
        c.wf(),
{
    let utc = chrono::Utc
        .timestamp_millis_opt(millis as i64)
        .single()
        .expect("invalid timestamp");
    let local = utc.with_timezone(&chrono::Local);
    CivilStamp {
        millis,
        year: local.year(),
        month: local.month() as u8,
        day: local.day() as u8,
        hour: local.hour() as u8,
        minute: local.minute() as u8,
        second: local.second() as u8,
    }
}

/// The RFC 2822 rendering of a timestamp in the machine's time zone.
///
/// Relies on chrono's `DateTime::to_rfc2822`, after the same conversion
/// as [`convert`]; the text depends on the machine's time zone, so
/// nothing is promised of it.
#[verifier::external_body]
pub fn to_rfc2822(millis: u64) -> String
    requires
        millis <= MAX_CIVIL_MILLIS,
{
    let utc = chrono::Utc
        .timestamp_millis_opt(millis as i64)
        .single()
        .expect("invalid timestamp");
    utc.with_timezone(&chrono::Local).to_rfc2822()
}

/// Seconds truncated to 32 bits, as milliseconds divided down.
pub open spec fn trunc_secs(ms: u64) -> u32 {
    ((ms / 1000) % 0x1_0000_0000) as u32
}

/// `total` seconds split into whole hours, minutes within the hour, and
/// seconds within the minute.
pub open spec fn split_hms(total: u32) -> (u32, u32, u32) {
    (
        (total / 3600) as u32,
        (((total - (total / 3600) * 3600) as u32) / 60) as u32,
        (total % 60) as u32,
    )
}

/// The compact `XhYmZs` rendering of a span of `ms` milliseconds: hours
/// are omitted when zero, minutes when hours and minutes are both zero,
/// seconds always shown.
pub open spec fn pretty_duration(ms: u64) -> Seq<char> {
    let hms = split_hms(trunc_secs(ms));
    let hours_part: Seq<char> = if hms.0 > 0 {
        dec_str(hms.0 as nat).push('h')
    } else {
        Seq::<char>::empty()
    };
    let minutes_part: Seq<char> = if hms.0 > 0 || hms.1 > 0 {
        dec_str(hms.1 as nat).push('m')
    } else {
        Seq::<char>::empty()
    };
    hours_part + minutes_part + dec_str(hms.2 as nat).push('s')
}

/// Renders a span of `ms` milliseconds as [`pretty_duration`] does.
pub fn prettify_duration(ms: u64) -> (r: String)
    ensures
        r@ == pretty_duration(ms),
{
    proof {
        reveal_strlit("h");
        reveal_strlit("m");
        reveal_strlit("s");
    }
    let total: u32 = ((ms / 1000) % 0x1_0000_0000) as u32;
    let hours: u32 = total / 3600;
    let minutes: u32 = (total - hours * 3600) / 60;
    let seconds: u32 = total % 60;
    let mut r = String::new();
    if hours > 0 {
        r.append(u64_to_string(hours as u64).as_str());
        r.append("h");
    }
    if hours > 0 || minutes > 0 {
        r.append(u64_to_string(minutes as u64).as_str());
        r.append("m");
    }
    r.append(u64_to_string(seconds as u64).as_str());
    r.append("s");
    proof {
        assert(r@ =~= pretty_duration(ms));
    }
    r
}

} // verus!
