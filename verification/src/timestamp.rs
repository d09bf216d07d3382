//! Timestamp generation: legacy whole-string keywords and the token path.
//!
//! `generate_timestamp` first matches a small fixed set of legacy keywords
//! (`unix`, `unix_ms`, `iso`, `rfc2822`, `date`, `time`, `datetime`), each a
//! pre-baked rendering of the instant in UTC that bypasses the token engine
//! entirely. Any other format string goes through token substitution against
//! the resolved timezone.

use vstd::prelude::*;
use vstd::string::StringExecFns;
use crate::sample::{
    MAX_EPOCH_MS, SampleView, TimeSample, now_epoch_millis, opt_str_view, resolve_sample,
    spec_resolved, utc_sample_of,
};
use crate::text::{
    chars_eq_str, chars_to_string, nat_of, spec_dec, spec_pad2, spec_pad3, spec_pad4, str_chars,
    u64_to_dec, u64_to_pad2, u64_to_pad3, u64_to_pad4,
};
use crate::tokens::{abs_of, render_tokens, spec_render};

verus! {

/// A named format with its rendering for one instant.
#[derive(Clone)]
pub struct TimestampFormat {
    /// Human-readable name of the format.
    pub name: String,
    /// The format keyword or format string itself.
    pub format: String,
    /// The rendered value.
    pub value: String,
}

/// The three-letter weekday name for a weekday index, `0` for Sunday.
pub open spec fn day_short3(w: int) -> Seq<char> {
    if w == 0 {
        "Sun"@
    } else if w == 1 {
        "Mon"@
    } else if w == 2 {
        "Tue"@
    } else if w == 3 {
        "Wed"@
    } else if w == 4 {
        "Thu"@
    } else if w == 5 {
        "Fri"@
    } else {
        "Sat"@
    }
}

/// The three-letter month name for a zero-based month index.
pub open spec fn month_short3(m0: int) -> Seq<char> {
    if m0 == 0 {
        "Jan"@
    } else if m0 == 1 {
        "Feb"@
    } else if m0 == 2 {
        "Mar"@
    } else if m0 == 3 {
        "Apr"@
    } else if m0 == 4 {
        "May"@
    } else if m0 == 5 {
        "Jun"@
    } else if m0 == 6 {
        "Jul"@
    } else if m0 == 7 {
        "Aug"@
    } else if m0 == 8 {
        "Sep"@
    } else if m0 == 9 {
        "Oct"@
    } else if m0 == 10 {
        "Nov"@
    } else {
        "Dec"@
    }
}

/// Whole seconds of the Unix epoch count, in decimal.
pub open spec fn unix_string(epoch_ms: int) -> Seq<char> {
    spec_dec(nat_of(epoch_ms / 1000))
}

/// Milliseconds of the Unix epoch count, in decimal.
pub open spec fn unix_ms_string(epoch_ms: int) -> Seq<char> {
    spec_dec(nat_of(epoch_ms))
}

/// `YYYY-MM-DD` of a sample.
pub open spec fn date_string(s: SampleView) -> Seq<char> {
    spec_pad4(nat_of(s.year)) + seq!['-'] + spec_pad2(nat_of(s.month0 + 1)) + seq!['-']
        + spec_pad2(nat_of(s.day))
}

/// `HH:MM:SS` of a sample.
pub open spec fn time_string(s: SampleView) -> Seq<char> {
    spec_pad2(nat_of(s.hour24)) + seq![':'] + spec_pad2(nat_of(s.minute)) + seq![':'] + spec_pad2(
        nat_of(s.second),
    )
}

/// `YYYY-MM-DD HH:MM:SS` of a sample.
pub open spec fn datetime_string(s: SampleView) -> Seq<char> {
    date_string(s) + seq![' '] + time_string(s)
}

/// ISO 8601 rendering of a UTC sample, millisecond precision.
pub open spec fn iso_string(s: SampleView) -> Seq<char> {
    date_string(s) + seq!['T'] + time_string(s) + seq!['.'] + spec_pad3(nat_of(s.millis))
        + "+00:00"@
}

/// RFC 2822 rendering of a UTC sample.
pub open spec fn rfc2822_string(s: SampleView) -> Seq<char> {
    day_short3(s.weekday) + ", "@ + spec_pad2(nat_of(s.day)) + seq![' '] + month_short3(s.month0)
        + seq![' '] + spec_pad4(nat_of(s.year)) + seq![' '] + time_string(s) + " +0000"@
}

/// What `generate_timestamp` renders for an instant, a format string and an
/// optional timezone: a legacy keyword's pre-baked UTC rendering when the
/// format matches one exactly, token substitution in the resolved timezone
/// otherwise.
pub open spec fn spec_generate(epoch_ms: int, fmt: Seq<char>, tz: Option<Seq<char>>) -> Seq<char> {
    if fmt == "unix"@ {
        unix_string(epoch_ms)
    } else if fmt == "unix_ms"@ {
        unix_ms_string(epoch_ms)
    } else if fmt == "iso"@ {
        iso_string(utc_sample_of(epoch_ms))
    } else if fmt == "rfc2822"@ {
        rfc2822_string(utc_sample_of(epoch_ms))
    } else if fmt == "date"@ {
        date_string(utc_sample_of(epoch_ms))
    } else if fmt == "time"@ {
        time_string(utc_sample_of(epoch_ms))
    } else if fmt == "datetime"@ {
        datetime_string(utc_sample_of(epoch_ms))
    } else {
        spec_render(fmt, spec_resolved(epoch_ms, tz))
    }
}

/// The legacy keyword `unix` always renders the supplied instant's whole
/// Unix epoch second count in decimal, whatever timezone is given.
pub proof fn lemma_unix_keyword(epoch_ms: int, tz: Option<Seq<char>>)
    ensures
        spec_generate(epoch_ms, "unix"@, tz) == spec_dec(nat_of(epoch_ms / 1000)),
{
}

fn day_short3_str(w: u32) -> (r: &'static str)
    ensures
        r@ == day_short3(w as int),
{
    match w {
        0 => "Sun",
        1 => "Mon",
        2 => "Tue",
        3 => "Wed",
        4 => "Thu",
        5 => "Fri",
        _ => "Sat",
    }
}

fn month_short3_str(m0: u32) -> (r: &'static str)
    ensures
        r@ == month_short3(m0 as int),
{
    match m0 {
        0 => "Jan",
        1 => "Feb",
        2 => "Mar",
        3 => "Apr",
        4 => "May",
        5 => "Jun",
        6 => "Jul",
        7 => "Aug",
        8 => "Sep",
        9 => "Oct",
        10 => "Nov",
        _ => "Dec",
    }
}

fn date_chars(s: &TimeSample) -> (r: Vec<char>)
    ensures
        r@ == date_string(s@),
{
    let mut v = u64_to_pad4(s.year as u64);
    v.push('-');
    let mut m = u64_to_pad2(s.month0 as u64 + 1);
    v.append(&mut m);
    v.push('-');
    let mut d = u64_to_pad2(s.day as u64);
    v.append(&mut d);
    proof {
        assert(v@ =~= date_string(s@));
    }
    v
}

fn time_chars(s: &TimeSample) -> (r: Vec<char>)
    ensures
        r@ == time_string(s@),
{
    let mut v = u64_to_pad2(s.hour24 as u64);
    v.push(':');
    let mut mi = u64_to_pad2(s.minute as u64);
    v.append(&mut mi);
    v.push(':');
    let mut se = u64_to_pad2(s.second as u64);
    v.append(&mut se);
    proof {
        assert(v@ =~= time_string(s@));
    }
    v
}

fn datetime_chars(s: &TimeSample) -> (r: Vec<char>)
    ensures
        r@ == datetime_string(s@),
{
    let mut v = date_chars(s);
    v.push(' ');
    let mut t = time_chars(s);
    v.append(&mut t);
    proof {
        assert(v@ =~= datetime_string(s@));
    }
    v
}

fn iso_chars(s: &TimeSample) -> (r: Vec<char>)
    ensures
        r@ == iso_string(s@),
{
    let mut v = date_chars(s);
    v.push('T');
    let mut t = time_chars(s);
    v.append(&mut t);
    v.push('.');
    let mut ms = u64_to_pad3(s.millis as u64);
    v.append(&mut ms);
    let mut off = str_chars("+00:00");
    v.append(&mut off);
    proof {
        assert(v@ =~= iso_string(s@));
    }
    v
}

fn rfc2822_chars(s: &TimeSample) -> (r: Vec<char>)
    ensures
        r@ == rfc2822_string(s@),
{
    let mut v = str_chars(day_short3_str(s.weekday));
    let mut sep = str_chars(", ");
    v.append(&mut sep);
    let mut d = u64_to_pad2(s.day as u64);
    v.append(&mut d);
    v.push(' ');
    let mut m = str_chars(month_short3_str(s.month0));
    v.append(&mut m);
    v.push(' ');
    let mut y = u64_to_pad4(s.year as u64);
    v.append(&mut y);
    v.push(' ');
    let mut t = time_chars(s);
    v.append(&mut t);
    let mut off = str_chars(" +0000");
    v.append(&mut off);
    proof {
        assert(v@ =~= rfc2822_string(s@));
    }
    v
}

/// Substitutes every recognized token in a format string with its value for
/// the given sample; unknown `{...}` text and literal characters pass
/// through verbatim.
pub fn format_with_tokens(fmt: &str, sample: &TimeSample) -> (r: String)
    ensures
        r@ == spec_render(fmt@, sample@),
{
    let chars = str_chars(fmt);
    let out = render_tokens(&chars, sample);
    chars_to_string(&out)
}

/// Renders a format string for a given instant and optional timezone:
/// legacy keywords render the instant in UTC, everything else goes through
/// token substitution in the resolved timezone.
pub fn generate_timestamp_at(epoch_ms: i64, format: &str, timezone: Option<&str>) -> (r: String)
    requires
        0 <= epoch_ms <= MAX_EPOCH_MS,
    ensures
        r@ == spec_generate(epoch_ms as int, format@, opt_str_view(timezone)),
{
    let f = str_chars(format);
    if chars_eq_str(&f, "unix") {
        let secs = epoch_ms / 1000;
        let v = u64_to_dec(secs as u64);
        return chars_to_string(&v);
    }
    if chars_eq_str(&f, "unix_ms") {
        let v = u64_to_dec(epoch_ms as u64);
        return chars_to_string(&v);
    }
    if chars_eq_str(&f, "iso") {
        let s = resolve_sample(epoch_ms, None);
        let v = iso_chars(&s);
        return chars_to_string(&v);
    }
    if chars_eq_str(&f, "rfc2822") {
        let s = resolve_sample(epoch_ms, None);
        let v = rfc2822_chars(&s);
        return chars_to_string(&v);
    }
    if chars_eq_str(&f, "date") {
        let s = resolve_sample(epoch_ms, None);
        let v = date_chars(&s);
        return chars_to_string(&v);
    }
    if chars_eq_str(&f, "time") {
        let s = resolve_sample(epoch_ms, None);
        let v = time_chars(&s);
        return chars_to_string(&v);
    }
    if chars_eq_str(&f, "datetime") {
        let s = resolve_sample(epoch_ms, None);
        let v = datetime_chars(&s);
        return chars_to_string(&v);
    }
    let sample = resolve_sample(epoch_ms, timezone);
    format_with_tokens(format, &sample)
}

/// The view of an optional owned timezone identifier.
pub open spec fn opt_string_view(tz: Option<String>) -> Option<Seq<char>> {
    match tz {
        Some(s) => Some(s@),
        None => None,
    }
}

/// Renders a format string for the current instant. Never fails: when the
/// system clock reads outside the supported range the fixed text
/// `Invalid format` comes back, as for any internal render failure.
pub fn generate_timestamp(format: String, timezone: Option<String>) -> (r: Result<String, String>)
    ensures
        r is Ok,
        r matches Ok(v) ==> (exists|ms: int|
            0 <= ms <= MAX_EPOCH_MS && v@ == spec_generate(ms, format@, opt_string_view(timezone)))
            || v@ == "Invalid format"@,
{
    let tz_ref: Option<&str> = match &timezone {
        Some(s) => Some(s.as_str()),
        None => None,
    };
    let now = now_epoch_millis();
    if 0 <= now && now <= MAX_EPOCH_MS {
        let v = generate_timestamp_at(now, format.as_str(), tz_ref);
        proof {
            assert(opt_str_view(tz_ref) == opt_string_view(timezone));
        }
        Ok(v)
    } else {
        Ok(String::from_str("Invalid format"))
    }
}

/// Runs the token path alone for the current instant: no legacy keywords,
/// every format string goes through token substitution.
pub fn format_tokens(format: String, timezone: Option<String>) -> (r: Result<String, String>)
    ensures
        r is Ok,
        r matches Ok(v) ==> (exists|ms: int|
            0 <= ms <= MAX_EPOCH_MS && v@ == spec_render(
                format@,
                spec_resolved(ms, opt_string_view(timezone)),
            )) || v@ == "Invalid format"@,
{
    let tz_ref: Option<&str> = match &timezone {
        Some(s) => Some(s.as_str()),
        None => None,
    };
    let now = now_epoch_millis();
    if 0 <= now && now <= MAX_EPOCH_MS {
        let sample = resolve_sample(now, tz_ref);
        let v = format_with_tokens(format.as_str(), &sample);
        proof {
            assert(opt_str_view(tz_ref) == opt_string_view(timezone));
        }
        Ok(v)
    } else {
        Ok(String::from_str("Invalid format"))
    }
}

/// The six stock renderings of an instant, one entry per legacy keyword
/// that names a distinct display format.
pub fn get_current_formats(epoch_ms: i64) -> (r: Vec<TimestampFormat>)
    requires
        0 <= epoch_ms <= MAX_EPOCH_MS,
    ensures
        r@.len() == 6,
        r@[0].name@ == "Unix Timestamp"@ && r@[0].format@ == "unix"@ && r@[0].value@ == unix_string(
            epoch_ms as int,
        ),
        r@[1].name@ == "Unix Milliseconds"@ && r@[1].format@ == "unix_ms"@ && r@[1].value@
            == unix_ms_string(epoch_ms as int),
        r@[2].name@ == "ISO 8601"@ && r@[2].format@ == "iso"@ && r@[2].value@ == iso_string(
            utc_sample_of(epoch_ms as int),
        ),
        r@[3].name@ == "RFC 2822"@ && r@[3].format@ == "rfc2822"@ && r@[3].value@
            == rfc2822_string(utc_sample_of(epoch_ms as int)),
        r@[4].name@ == "Date Only"@ && r@[4].format@ == "date"@ && r@[4].value@ == date_string(
            utc_sample_of(epoch_ms as int),
        ),
        r@[5].name@ == "Time Only"@ && r@[5].format@ == "time"@ && r@[5].value@ == time_string(
            utc_sample_of(epoch_ms as int),
        ),
{
    let utc = resolve_sample(epoch_ms, None);
    let secs = u64_to_dec((epoch_ms / 1000) as u64);
    let millis = u64_to_dec(epoch_ms as u64);
    let iso = iso_chars(&utc);
    let rfc = rfc2822_chars(&utc);
    let date = date_chars(&utc);
    let time = time_chars(&utc);
    let mut r: Vec<TimestampFormat> = Vec::new();
    r.push(
        TimestampFormat {
            name: String::from_str("Unix Timestamp"),
            format: String::from_str("unix"),
            value: chars_to_string(&secs),
        },
    );
    r.push(
        TimestampFormat {
            name: String::from_str("Unix Milliseconds"),
            format: String::from_str("unix_ms"),
            value: chars_to_string(&millis),
        },
    );
    r.push(
        TimestampFormat {
            name: String::from_str("ISO 8601"),
            format: String::from_str("iso"),
            value: chars_to_string(&iso),
        },
    );
    r.push(
        TimestampFormat {
            name: String::from_str("RFC 2822"),
            format: String::from_str("rfc2822"),
            value: chars_to_string(&rfc),
        },
    );
    r.push(
        TimestampFormat {
            name: String::from_str("Date Only"),
            format: String::from_str("date"),
            value: chars_to_string(&date),
        },
    );
    r.push(
        TimestampFormat {
            name: String::from_str("Time Only"),
            format: String::from_str("time"),
            value: chars_to_string(&time),
        },
    );
    r
}

/// What a signed duration in seconds humanizes to: `just now` under a
/// minute, then whole minutes, hours or days ago, singular or plural.
pub open spec fn spec_humanize(seconds: int) -> Seq<char> {
    let s = abs_of(seconds);
    if s < 60 {
        "just now"@
    } else if s / 60 < 60 {
        spec_dec(nat_of(s / 60)) + (if s / 60 == 1 {
            " minute ago"@
        } else {
            " minutes ago"@
        })
    } else if s / 60 / 60 < 24 {
        spec_dec(nat_of(s / 60 / 60)) + (if s / 60 / 60 == 1 {
            " hour ago"@
        } else {
            " hours ago"@
        })
    } else {
        spec_dec(nat_of(s / 60 / 60 / 24)) + (if s / 60 / 60 / 24 == 1 {
            " day ago"@
        } else {
            " days ago"@
        })
    }
}

/// Humanizes a signed duration in seconds, e.g. `5 minutes ago`.
pub fn humanize_duration(seconds: i64) -> (r: String)
    ensures
        r@ == spec_humanize(seconds as int),
{
    let a: u64 = if seconds >= 0 {
        seconds as u64
    } else {
        (-(seconds as i128)) as u64
    };
    if a < 60 {
        return String::from_str("just now");
    }
    let mins = a / 60;
    if mins < 60 {
        let mut v = u64_to_dec(mins);
        let mut sfx = if mins == 1 {
            str_chars(" minute ago")
        } else {
            str_chars(" minutes ago")
        };
        v.append(&mut sfx);
        return chars_to_string(&v);
    }
    let hours = mins / 60;
    if hours < 24 {
        let mut v = u64_to_dec(hours);
        let mut sfx = if hours == 1 {
            str_chars(" hour ago")
        } else {
            str_chars(" hours ago")
        };
        v.append(&mut sfx);
        return chars_to_string(&v);
    }
    let days = hours / 24;
    let mut v = u64_to_dec(days);
    let mut sfx = if days == 1 {
        str_chars(" day ago")
    } else {
        str_chars(" days ago")
    };
    v.append(&mut sfx);
    chars_to_string(&v)
}

} // verus!
