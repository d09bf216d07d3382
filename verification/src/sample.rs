//! Timezone-resolved calendar fields of one instant.
//!
//! A [`TimeSample`] holds, as plain values, everything the token formatter
//! reads of an instant in one resolved timezone: calendar date, clock time,
//! ISO week, the timezone's fixed UTC offset at that instant and its name.
//! The calendar arithmetic itself (days-from-epoch to year/month/day, the
//! timezone database lookup) is done by the `chrono` and `chrono-tz` crates
//! behind trusted wrappers; everything downstream of the sample is verified.

use vstd::prelude::*;
use chrono::{Datelike, Offset, Timelike};

verus! {

/// Last representable instant: the final millisecond of year 9999, UTC.
pub const MAX_EPOCH_MS: i64 = 253_402_300_799_999;

/// The mathematical content of a `TimeSample`.
pub ghost struct SampleView {
    /// Calendar year in the resolved timezone.
    pub year: int,
    /// Zero-based month, `0 ..= 11`.
    pub month0: int,
    /// Day of month, `1 ..= 31`.
    pub day: int,
    /// Weekday index, `0` for Sunday through `6` for Saturday.
    pub weekday: int,
    /// Hour on the 24-hour clock, `0 ..= 23`.
    pub hour24: int,
    /// Minute, `0 ..= 59`.
    pub minute: int,
    /// Second, `0 ..= 59`.
    pub second: int,
    /// Millisecond within the second, `0 ..= 999`.
    pub millis: int,
    /// ISO week number, `1 ..= 53`.
    pub week: int,
    /// The resolved timezone's offset from UTC in seconds at this instant.
    pub offset_seconds: int,
    /// The resolved timezone's identifier, `UTC` when none resolved.
    pub tz_name: Seq<char>,
}

impl SampleView {
    /// All fields lie in their calendar ranges and are usable for rendering.
    pub open spec fn wf(self) -> bool {
        &&& 0 <= self.year
        &&& 0 <= self.month0 < 12
        &&& 1 <= self.day <= 31
        &&& 0 <= self.weekday < 7
        &&& 0 <= self.hour24 < 24
        &&& 0 <= self.minute < 60
        &&& 0 <= self.second < 60
        &&& 0 <= self.millis < 1000
        &&& 1 <= self.week <= 53
        &&& -86400 < self.offset_seconds < 86400
    }
}

/// The instant and timezone-resolved calendar fields needed for rendering.
pub struct TimeSample {
    /// Calendar year in the resolved timezone.
    pub year: u32,
    /// Zero-based month, `0 ..= 11`.
    pub month0: u32,
    /// Day of month, `1 ..= 31`.
    pub day: u32,
    /// Weekday index, `0` for Sunday through `6` for Saturday.
    pub weekday: u32,
    /// Hour on the 24-hour clock, `0 ..= 23`.
    pub hour24: u32,
    /// Minute, `0 ..= 59`.
    pub minute: u32,
    /// Second, `0 ..= 59`.
    pub second: u32,
    /// Millisecond within the second, `0 ..= 999`.
    pub millis: u32,
    /// ISO week number, `1 ..= 53`.
    pub week: u32,
    /// The resolved timezone's offset from UTC in seconds at this instant.
    pub offset_seconds: i32,
    /// The resolved timezone's identifier, `UTC` when none resolved.
    pub tz_name: String,
}

impl View for TimeSample {
    type V = SampleView;

    open spec fn view(&self) -> SampleView {
        SampleView {
            year: self.year as int,
            month0: self.month0 as int,
            day: self.day as int,
            weekday: self.weekday as int,
            hour24: self.hour24 as int,
            minute: self.minute as int,
            second: self.second as int,
            millis: self.millis as int,
            week: self.week as int,
            offset_seconds: self.offset_seconds as int,
            tz_name: self.tz_name@,
        }
    }
}

impl TimeSample {
    /// All fields lie in their calendar ranges.
    pub open spec fn wf(&self) -> bool {
        self@.wf()
    }
}

/// The calendar fields of an instant rendered in UTC.
pub uninterp spec fn utc_sample_of(epoch_ms: int) -> SampleView;

/// The calendar fields of an instant rendered in the named timezone,
/// per the IANA timezone database that `chrono-tz` carries.
pub uninterp spec fn tz_sample_of(epoch_ms: int, name: Seq<char>) -> SampleView;

/// Whether the timezone database knows an identifier.
pub uninterp spec fn is_known_tz(name: Seq<char>) -> bool;

/// Relies on chrono's `DateTime::from_timestamp_millis` (total for instants
/// up to ca. 262,000 years from the common era, so for the admitted range)
/// and on the documented ranges of the `Datelike`/`Timelike` accessors and
/// `iso_week().week()`. In UTC the offset is zero by definition.
#[verifier::external_body]
fn utc_sample(epoch_ms: i64) -> (r: TimeSample)
    requires
        0 <= epoch_ms <= MAX_EPOCH_MS,
    ensures
        r@ == utc_sample_of(epoch_ms as int),
        r@.wf(),
        r@.offset_seconds == 0,
        r@.tz_name == "UTC"@,
{
    let dt = chrono::DateTime::from_timestamp_millis(epoch_ms).unwrap();
    TimeSample {
        year: dt.year() as u32, month0: dt.month0(), day: dt.day(),
        weekday: dt.weekday().num_days_from_sunday(), hour24: dt.hour(), minute: dt.minute(),
        second: dt.second(), millis: dt.timestamp_subsec_millis(), week: dt.iso_week().week(),
        offset_seconds: 0, tz_name: String::from("UTC"),
    }
}

/// Relies on chrono-tz: `Tz::from_str` succeeds exactly on the identifiers
/// in its generated timezone table and `Tz::name` returns that identifier
/// back; on chrono's `with_timezone` and accessor ranges as in
/// [`utc_sample`]; and on `FixedOffset` keeping its offset strictly within
/// one day of UTC.
#[verifier::external_body]
fn tz_sample(epoch_ms: i64, name: &str) -> (r: Option<TimeSample>)
    requires
        0 <= epoch_ms <= MAX_EPOCH_MS,
    ensures
        r is Some <==> is_known_tz(name@),
        r is Some ==> r->0@ == tz_sample_of(epoch_ms as int, name@),
        r is Some ==> r->0@.wf(),
        r is Some ==> r->0@.tz_name == name@,
{
    let tz = match name.parse::<chrono_tz::Tz>() {
        Ok(t) => t,
        Err(_) => return None,
    };
    let dt = chrono::DateTime::from_timestamp_millis(epoch_ms)?.with_timezone(&tz);
    Some(TimeSample {
        year: dt.year() as u32, month0: dt.month0(), day: dt.day(),
        weekday: dt.weekday().num_days_from_sunday(), hour24: dt.hour(), minute: dt.minute(),
        second: dt.second(), millis: dt.timestamp_subsec_millis(), week: dt.iso_week().week(),
        offset_seconds: dt.offset().fix().local_minus_utc(), tz_name: String::from(tz.name()),
    })
}

/// Relies on chrono's `Utc::now` and `timestamp_millis`. The system clock
/// may read anything, so nothing is claimed of the result.
#[verifier::external_body]
pub(crate) fn now_epoch_millis() -> i64 {
    chrono::Utc::now().timestamp_millis()
}

/// The view of an optional timezone identifier.
pub open spec fn opt_str_view(tz: Option<&str>) -> Option<Seq<char>> {
    match tz {
        Some(s) => Some(s@),
        None => None,
    }
}

/// The sample an instant resolves to: the named timezone's when the name is
/// known, UTC's when no name is given or the name is unknown.
pub open spec fn spec_resolved(epoch_ms: int, tz: Option<Seq<char>>) -> SampleView {
    match tz {
        Some(name) => if is_known_tz(name) {
            tz_sample_of(epoch_ms, name)
        } else {
            utc_sample_of(epoch_ms)
        },
        None => utc_sample_of(epoch_ms),
    }
}

/// Resolves an optional timezone identifier for an instant. An absent or
/// unrecognized identifier falls back to UTC without error.
pub fn resolve_sample(epoch_ms: i64, timezone: Option<&str>) -> (r: TimeSample)
    requires
        0 <= epoch_ms <= MAX_EPOCH_MS,
    ensures
        r@ == spec_resolved(epoch_ms as int, opt_str_view(timezone)),
        r@.wf(),
        (match timezone {
            Some(name) => !is_known_tz(name@),
            None => true,
        }) ==> r@.offset_seconds == 0 && r@.tz_name == "UTC"@,
{
    match timezone {
        Some(name) => match tz_sample(epoch_ms, name) {
            Some(s) => s,
            None => utc_sample(epoch_ms),
        },
        None => utc_sample(epoch_ms),
    }
}

} // verus!
