use thymestamp::sample::TimeSample;
use thymestamp::timestamp::{
    format_tokens, format_with_tokens, generate_timestamp, generate_timestamp_at,
    get_current_formats, humanize_duration,
};
use thymestamp::tokens::{ordinal_suffix, season};

fn sample(
    year: u32,
    month0: u32,
    day: u32,
    weekday: u32,
    hour24: u32,
    minute: u32,
    second: u32,
    millis: u32,
    week: u32,
    offset_seconds: i32,
    tz_name: &str,
) -> TimeSample {
    TimeSample {
        year,
        month0,
        day,
        weekday,
        hour24,
        minute,
        second,
        millis,
        week,
        offset_seconds,
        tz_name: tz_name.to_string(),
    }
}

fn plain_sample() -> TimeSample {
    // 2024-03-05 14:07:09.042, a Tuesday in ISO week 10, UTC.
    sample(2024, 2, 5, 2, 14, 7, 9, 42, 10, 0, "UTC")
}

#[test]
fn plain_text_passes_through() {
    let s = plain_sample();
    assert_eq!(format_with_tokens("no tokens here", &s), "no tokens here");
    assert_eq!(format_with_tokens("", &s), "");
    assert_eq!(format_with_tokens("braces } alone {", &s), "braces } alone {");
    assert_eq!(format_with_tokens("{unknown}", &s), "{unknown}");
    assert_eq!(format_with_tokens("{Day}", &s), "{Day}");
}

#[test]
fn same_token_twice_renders_identically() {
    let s = plain_sample();
    assert_eq!(format_with_tokens("{year}-{year}", &s), "2024-2024");
    assert_eq!(format_with_tokens("{season}{season}", &s), "SpringSpring");
}

#[test]
fn token_values_for_known_sample() {
    let s = plain_sample();
    assert_eq!(format_with_tokens("{day-abb}", &s), "Tue.");
    assert_eq!(format_with_tokens("{day}", &s), "Tuesday");
    assert_eq!(format_with_tokens("{month-abb}", &s), "Mar.");
    assert_eq!(format_with_tokens("{month}", &s), "March");
    assert_eq!(format_with_tokens("{date}", &s), "5");
    assert_eq!(format_with_tokens("{time}", &s), "2:07");
    assert_eq!(format_with_tokens("{period}", &s), "PM");
    assert_eq!(format_with_tokens("{year}", &s), "2024");
    assert_eq!(format_with_tokens("{time24}", &s), "14:07");
    assert_eq!(format_with_tokens("{seconds}", &s), "09");
    assert_eq!(format_with_tokens("{milliseconds}", &s), "042");
    assert_eq!(format_with_tokens("{hours}", &s), "2");
    assert_eq!(format_with_tokens("{hours24}", &s), "14");
    assert_eq!(format_with_tokens("{minutes}", &s), "07");
    assert_eq!(format_with_tokens("{day-ordinal}", &s), "5th");
    assert_eq!(format_with_tokens("{month-num}", &s), "3");
    assert_eq!(format_with_tokens("{month-num-pad}", &s), "03");
    assert_eq!(format_with_tokens("{year-short}", &s), "24");
    assert_eq!(format_with_tokens("{week}", &s), "10");
    assert_eq!(format_with_tokens("{iso-week}", &s), "10");
    assert_eq!(format_with_tokens("{quarter}", &s), "1");
    assert_eq!(format_with_tokens("{season}", &s), "Spring");
    assert_eq!(format_with_tokens("{timezone}", &s), "UTC");
    assert_eq!(format_with_tokens("{utc-offset}", &s), "+00:00");
    assert_eq!(format_with_tokens("{timezone-full}", &s), "UTC");
    assert_eq!(format_with_tokens("{relative}", &s), "just now");
}

#[test]
fn longer_token_is_not_shadowed_by_shorter_name() {
    let s = plain_sample();
    assert_eq!(format_with_tokens("{month-abb} {month}", &s), "Mar. March");
    assert_eq!(format_with_tokens("{day-ordinal}{day}", &s), "5thTuesday");
    assert_eq!(format_with_tokens("{time24}{time}", &s), "14:072:07");
    assert_eq!(format_with_tokens("{timezone-full}|{timezone}", &s), "UTC|UTC");
}

#[test]
fn braces_around_and_after_tokens() {
    let s = plain_sample();
    assert_eq!(format_with_tokens("{{time}}", &s), "{2:07}");
    assert_eq!(format_with_tokens("{time}24}", &s), "2:0724}");
    assert_eq!(format_with_tokens("{time{time}", &s), "{time2:07");
}

#[test]
fn day_ordinal_suffixes() {
    let days = [1, 2, 3, 11, 12, 13, 21, 22, 23];
    let expected = ["1st", "2nd", "3rd", "11th", "12th", "13th", "21st", "22nd", "23rd"];
    for (d, e) in days.iter().zip(expected.iter()) {
        let mut s = plain_sample();
        s.day = *d;
        assert_eq!(format_with_tokens("{day-ordinal}", &s), *e);
    }
}

#[test]
fn quarter_by_month() {
    let cases = [(1, "1"), (4, "2"), (7, "3"), (10, "4"), (2, "1"), (3, "1")];
    for (month, e) in cases.iter() {
        let mut s = plain_sample();
        s.month0 = month - 1;
        assert_eq!(format_with_tokens("{quarter}", &s), *e);
    }
}

#[test]
fn season_by_month() {
    let mut s = plain_sample();
    s.month0 = 0;
    assert_eq!(format_with_tokens("{season}", &s), "Winter");
    s.month0 = 5;
    assert_eq!(format_with_tokens("{season}", &s), "Summer");
}

#[test]
fn ordinal_suffix_rule() {
    assert_eq!(ordinal_suffix(1), "st");
    assert_eq!(ordinal_suffix(2), "nd");
    assert_eq!(ordinal_suffix(3), "rd");
    assert_eq!(ordinal_suffix(4), "th");
    assert_eq!(ordinal_suffix(11), "th");
    assert_eq!(ordinal_suffix(12), "th");
    assert_eq!(ordinal_suffix(13), "th");
    assert_eq!(ordinal_suffix(111), "th");
    assert_eq!(ordinal_suffix(101), "st");
}

#[test]
fn season_mapping() {
    assert_eq!(season(0), "Winter");
    assert_eq!(season(1), "Winter");
    assert_eq!(season(2), "Spring");
    assert_eq!(season(4), "Spring");
    assert_eq!(season(5), "Summer");
    assert_eq!(season(7), "Summer");
    assert_eq!(season(8), "Fall");
    assert_eq!(season(10), "Fall");
    assert_eq!(season(11), "Winter");
}

#[test]
fn unknown_timezone_falls_back_to_utc() {
    // 2024-03-05T14:07:09.042Z
    let ms: i64 = 1709647629042;
    let out = generate_timestamp_at(ms, "{utc-offset}", Some("Not/AZone"));
    assert_eq!(out, "+00:00");
    let name = generate_timestamp_at(ms, "{timezone}", Some("Not/AZone"));
    assert_eq!(name, "UTC");
    // The unknown name renders exactly as no name at all.
    let with = generate_timestamp_at(ms, "{datetime} {utc-offset}", Some("Not/AZone"));
    let without = generate_timestamp_at(ms, "{datetime} {utc-offset}", None);
    assert_eq!(with, without);
}

#[test]
fn named_timezone_shifts_the_clock() {
    // 1970-01-01T00:00:00.000Z is 1969-12-31 19:00 in America/New_York (EST).
    let out = generate_timestamp_at(0, "{year} {time24} {utc-offset}", Some("America/New_York"));
    assert_eq!(out, "1969 19:00 -05:00");
    let tz = generate_timestamp_at(0, "{timezone-full}", Some("America/New_York"));
    assert_eq!(tz, "America/New_York");
}

#[test]
fn utc_fields_at_epoch() {
    let out = generate_timestamp_at(0, "{year}-{month-num-pad}-{date} {time24} {day}", None);
    assert_eq!(out, "1970-01-1 00:00 Thursday");
    assert_eq!(generate_timestamp_at(0, "unix", None), "0");
    assert_eq!(generate_timestamp_at(0, "iso", None), "1970-01-01T00:00:00.000+00:00");
}

#[test]
fn legacy_keywords_at_known_instant() {
    // 2024-03-05T14:07:09.042Z
    let ms: i64 = 1709647629042;
    assert_eq!(generate_timestamp_at(ms, "unix", None), "1709647629");
    assert_eq!(generate_timestamp_at(ms, "unix_ms", None), "1709647629042");
    assert_eq!(generate_timestamp_at(ms, "iso", None), "2024-03-05T14:07:09.042+00:00");
    assert_eq!(generate_timestamp_at(ms, "rfc2822", None), "Tue, 05 Mar 2024 14:07:09 +0000");
    assert_eq!(generate_timestamp_at(ms, "date", None), "2024-03-05");
    assert_eq!(generate_timestamp_at(ms, "time", None), "14:07:09");
    assert_eq!(generate_timestamp_at(ms, "datetime", None), "2024-03-05 14:07:09");
}

#[test]
fn legacy_keywords_ignore_timezone() {
    let ms: i64 = 1709647629042;
    assert_eq!(generate_timestamp_at(ms, "unix", Some("America/New_York")), "1709647629");
    assert_eq!(generate_timestamp_at(ms, "date", Some("America/New_York")), "2024-03-05");
}

#[test]
fn unix_keyword_is_epoch_seconds() {
    let ms: i64 = 1709647629042;
    let out = generate_timestamp_at(ms, "unix", None);
    let parsed: i64 = out.parse().expect("unix output parses as an integer");
    assert_eq!(parsed, ms / 1000);

    // Through the clock-reading entry point as well.
    let now = generate_timestamp("unix".to_string(), None).unwrap();
    let _: i64 = now.parse().expect("unix output parses as an integer");
}

#[test]
fn stock_format_list() {
    let ms: i64 = 1709647629042;
    let out = get_current_formats(ms);
    assert_eq!(out.len(), 6);
    assert_eq!(out[0].name, "Unix Timestamp");
    assert_eq!(out[0].format, "unix");
    assert_eq!(out[0].value, "1709647629");
    assert_eq!(out[1].name, "Unix Milliseconds");
    assert_eq!(out[1].value, "1709647629042");
    assert_eq!(out[2].name, "ISO 8601");
    assert_eq!(out[2].value, "2024-03-05T14:07:09.042+00:00");
    assert_eq!(out[3].name, "RFC 2822");
    assert_eq!(out[3].value, "Tue, 05 Mar 2024 14:07:09 +0000");
    assert_eq!(out[4].name, "Date Only");
    assert_eq!(out[4].value, "2024-03-05");
    assert_eq!(out[5].name, "Time Only");
    assert_eq!(out[5].value, "14:07:09");
}

#[test]
fn humanize_duration_thresholds() {
    assert_eq!(humanize_duration(0), "just now");
    assert_eq!(humanize_duration(59), "just now");
    assert_eq!(humanize_duration(60), "1 minute ago");
    assert_eq!(humanize_duration(120), "2 minutes ago");
    assert_eq!(humanize_duration(3599), "59 minutes ago");
    assert_eq!(humanize_duration(3600), "1 hour ago");
    assert_eq!(humanize_duration(7200), "2 hours ago");
    assert_eq!(humanize_duration(86399), "23 hours ago");
    assert_eq!(humanize_duration(86400), "1 day ago");
    assert_eq!(humanize_duration(172800), "2 days ago");
    assert_eq!(humanize_duration(-90), "1 minute ago");
}

#[test]
fn twelve_hour_clock_edges() {
    let mut s = plain_sample();
    s.hour24 = 0;
    assert_eq!(format_with_tokens("{hours} {period}", &s), "12 AM");
    s.hour24 = 12;
    assert_eq!(format_with_tokens("{hours} {period}", &s), "12 PM");
    s.hour24 = 13;
    assert_eq!(format_with_tokens("{hours} {period}", &s), "1 PM");
    s.hour24 = 11;
    assert_eq!(format_with_tokens("{hours} {period}", &s), "11 AM");
}

#[test]
fn clock_reading_paths_return_ok() {
    let v = format_tokens("{year}".to_string(), None).unwrap();
    let year: i32 = v.parse().expect("year is numeric");
    assert!(year >= 1969);
    let t = generate_timestamp("{utc-offset}".to_string(), Some("Not/AZone".to_string())).unwrap();
    assert_eq!(t, "+00:00");
}

#[test]
fn negative_offset_rendering() {
    let mut s = plain_sample();
    s.offset_seconds = -19800;
    assert_eq!(format_with_tokens("{utc-offset}", &s), "-05:30");
    s.offset_seconds = 19800;
    assert_eq!(format_with_tokens("{utc-offset}", &s), "+05:30");
}
