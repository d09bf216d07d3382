//! The token vocabulary of the formatting engine and the substitution pass.
//!
//! A format string holds literal text and `{name}` placeholders. Rendering
//! walks the string once: at each position the longest-defined reading is a
//! single recognized `{name}` occurrence (no recognized pattern is a prefix
//! of another followed by more text), which is replaced by that token's
//! value for the given sample; every other character, unknown `{...}` text
//! included, passes through verbatim.

use vstd::prelude::*;
use crate::sample::SampleView;
use crate::text::{nat_of, spec_dec, spec_pad2, spec_pad3};

verus! {

/// A named placeholder recognized inside `{...}` in a format string.
#[derive(Clone, Copy)]
pub enum Token {
    /// `{day-abb}`: abbreviated weekday name, `Sun.` through `Sat.`.
    DayAbb,
    /// `{month-abb}`: abbreviated month name, `Jan.` through `Dec.`.
    MonthAbb,
    /// `{day}`: full weekday name.
    Day,
    /// `{month}`: full month name.
    Month,
    /// `{date}`: day of month, unpadded.
    Date,
    /// `{time}`: 12-hour clock time, `H:MM`.
    Time,
    /// `{period}`: `AM` or `PM`.
    Period,
    /// `{year}`: calendar year, unpadded.
    Year,
    /// `{time24}`: 24-hour clock time, `HH:MM`.
    Time24,
    /// `{seconds}`: second of minute, two digits.
    Seconds,
    /// `{milliseconds}`: millisecond of second, three digits.
    Milliseconds,
    /// `{hours}`: 12-hour clock hour, unpadded.
    Hours,
    /// `{hours24}`: 24-hour clock hour, unpadded.
    Hours24,
    /// `{minutes}`: minute of hour, two digits.
    Minutes,
    /// `{day-ordinal}`: day of month with English ordinal suffix.
    DayOrdinal,
    /// `{month-num}`: one-based month number, unpadded.
    MonthNum,
    /// `{month-num-pad}`: one-based month number, two digits.
    MonthNumPad,
    /// `{year-short}`: year modulo 100, two digits.
    YearShort,
    /// `{week}`: week number (the ISO week number).
    Week,
    /// `{iso-week}`: ISO week number.
    IsoWeek,
    /// `{quarter}`: quarter of year, `1` through `4`.
    Quarter,
    /// `{season}`: Northern-hemisphere season name.
    Season,
    /// `{timezone}`: the resolved timezone's identifier.
    Timezone,
    /// `{utc-offset}`: UTC offset as `±HH:MM`.
    UtcOffset,
    /// `{timezone-full}`: the resolved timezone's identifier.
    TimezoneFull,
    /// `{relative}`: constant placeholder text.
    Relative,
}

/// The placeholder text that stands for a token, braces included.
pub open spec fn token_pattern(t: Token) -> Seq<char> {
    match t {
        Token::DayAbb => seq!['{', 'd', 'a', 'y', '-', 'a', 'b', 'b', '}'],
        Token::MonthAbb => seq!['{', 'm', 'o', 'n', 't', 'h', '-', 'a', 'b', 'b', '}'],
        Token::Day => seq!['{', 'd', 'a', 'y', '}'],
        Token::Month => seq!['{', 'm', 'o', 'n', 't', 'h', '}'],
        Token::Date => seq!['{', 'd', 'a', 't', 'e', '}'],
        Token::Time => seq!['{', 't', 'i', 'm', 'e', '}'],
        Token::Period => seq!['{', 'p', 'e', 'r', 'i', 'o', 'd', '}'],
        Token::Year => seq!['{', 'y', 'e', 'a', 'r', '}'],
        Token::Time24 => seq!['{', 't', 'i', 'm', 'e', '2', '4', '}'],
        Token::Seconds => seq!['{', 's', 'e', 'c', 'o', 'n', 'd', 's', '}'],
        Token::Milliseconds => seq![
            '{',
            'm',
            'i',
            'l',
            'l',
            'i',
            's',
            'e',
            'c',
            'o',
            'n',
            'd',
            's',
            '}',
        ],
        Token::Hours => seq!['{', 'h', 'o', 'u', 'r', 's', '}'],
        Token::Hours24 => seq!['{', 'h', 'o', 'u', 'r', 's', '2', '4', '}'],
        Token::Minutes => seq!['{', 'm', 'i', 'n', 'u', 't', 'e', 's', '}'],
        Token::DayOrdinal => seq!['{', 'd', 'a', 'y', '-', 'o', 'r', 'd', 'i', 'n', 'a', 'l', '}'],
        Token::MonthNum => seq!['{', 'm', 'o', 'n', 't', 'h', '-', 'n', 'u', 'm', '}'],
        Token::MonthNumPad => seq![
            '{',
            'm',
            'o',
            'n',
            't',
            'h',
            '-',
            'n',
            'u',
            'm',
            '-',
            'p',
            'a',
            'd',
            '}',
        ],
        Token::YearShort => seq!['{', 'y', 'e', 'a', 'r', '-', 's', 'h', 'o', 'r', 't', '}'],
        Token::Week => seq!['{', 'w', 'e', 'e', 'k', '}'],
        Token::IsoWeek => seq!['{', 'i', 's', 'o', '-', 'w', 'e', 'e', 'k', '}'],
        Token::Quarter => seq!['{', 'q', 'u', 'a', 'r', 't', 'e', 'r', '}'],
        Token::Season => seq!['{', 's', 'e', 'a', 's', 'o', 'n', '}'],
        Token::Timezone => seq!['{', 't', 'i', 'm', 'e', 'z', 'o', 'n', 'e', '}'],
        Token::UtcOffset => seq!['{', 'u', 't', 'c', '-', 'o', 'f', 'f', 's', 'e', 't', '}'],
        Token::TimezoneFull => seq![
            '{',
            't',
            'i',
            'm',
            'e',
            'z',
            'o',
            'n',
            'e',
            '-',
            'f',
            'u',
            'l',
            'l',
            '}',
        ],
        Token::Relative => seq!['{', 'r', 'e', 'l', 'a', 't', 'i', 'v', 'e', '}'],
    }
}

/// Brace-wrapped text: it opens with `{`, closes with `}`, and holds no
/// brace in between.
pub open spec fn token_shaped(p: Seq<char>) -> bool {
    &&& 3 <= p.len()
    &&& p[0] == '{'
    &&& p[p.len() - 1] == '}'
    &&& forall|k: int| 0 < k < p.len() - 1 ==> #[trigger] p[k] != '{' && p[k] != '}'
}

/// Every pattern is brace-wrapped text of at most 15 characters.
pub proof fn lemma_pattern_shape(t: Token)
    ensures
        token_shaped(token_pattern(t)),
        3 <= token_pattern(t).len() <= 15,
{
}

/// Brace-wrapped text that another brace-wrapped text plus arbitrary tail
/// opens with is that other text itself: the closing brace pins the length.
proof fn lemma_shaped_prefix(p1: Seq<char>, p2: Seq<char>, rest: Seq<char>)
    requires
        token_shaped(p1),
        token_shaped(p2),
        p1.is_prefix_of(p2 + rest),
    ensures
        p1 == p2,
{
    let n1 = p1.len() as int;
    let n2 = p2.len() as int;
    if n1 < n2 {
        assert(p1[n1 - 1] == (p2 + rest)[n1 - 1]);
        assert((p2 + rest)[n1 - 1] == p2[n1 - 1]);
        assert(p2[n1 - 1] != '}');
        assert(false);
    } else if n1 > n2 {
        assert(p1[n2 - 1] == (p2 + rest)[n2 - 1]);
        assert((p2 + rest)[n2 - 1] == p2[n2 - 1]);
        assert(p2[n2 - 1] == '}');
        assert(p1[n2 - 1] != '}');
        assert(false);
    } else {
        assert(p1 =~= p2);
    }
}

/// Distinct tokens have distinct patterns.
proof fn lemma_pattern_injective(t1: Token, t2: Token)
    requires
        token_pattern(t1) == token_pattern(t2),
    ensures
        t1 == t2,
{
}

/// The token whose pattern stands at the front of the text, if any.
/// At most one pattern can match, so the testing order settles nothing.
pub open spec fn spec_match_at(fmt: Seq<char>) -> Option<Token> {
    if token_pattern(Token::DayAbb).is_prefix_of(fmt) {
        Some(Token::DayAbb)
    } else if token_pattern(Token::MonthAbb).is_prefix_of(fmt) {
        Some(Token::MonthAbb)
    } else if token_pattern(Token::Day).is_prefix_of(fmt) {
        Some(Token::Day)
    } else if token_pattern(Token::Month).is_prefix_of(fmt) {
        Some(Token::Month)
    } else if token_pattern(Token::Date).is_prefix_of(fmt) {
        Some(Token::Date)
    } else if token_pattern(Token::Time).is_prefix_of(fmt) {
        Some(Token::Time)
    } else if token_pattern(Token::Period).is_prefix_of(fmt) {
        Some(Token::Period)
    } else if token_pattern(Token::Year).is_prefix_of(fmt) {
        Some(Token::Year)
    } else if token_pattern(Token::Time24).is_prefix_of(fmt) {
        Some(Token::Time24)
    } else if token_pattern(Token::Seconds).is_prefix_of(fmt) {
        Some(Token::Seconds)
    } else if token_pattern(Token::Milliseconds).is_prefix_of(fmt) {
        Some(Token::Milliseconds)
    } else if token_pattern(Token::Hours).is_prefix_of(fmt) {
        Some(Token::Hours)
    } else if token_pattern(Token::Hours24).is_prefix_of(fmt) {
        Some(Token::Hours24)
    } else if token_pattern(Token::Minutes).is_prefix_of(fmt) {
        Some(Token::Minutes)
    } else if token_pattern(Token::DayOrdinal).is_prefix_of(fmt) {
        Some(Token::DayOrdinal)
    } else if token_pattern(Token::MonthNum).is_prefix_of(fmt) {
        Some(Token::MonthNum)
    } else if token_pattern(Token::MonthNumPad).is_prefix_of(fmt) {
        Some(Token::MonthNumPad)
    } else if token_pattern(Token::YearShort).is_prefix_of(fmt) {
        Some(Token::YearShort)
    } else if token_pattern(Token::Week).is_prefix_of(fmt) {
        Some(Token::Week)
    } else if token_pattern(Token::IsoWeek).is_prefix_of(fmt) {
        Some(Token::IsoWeek)
    } else if token_pattern(Token::Quarter).is_prefix_of(fmt) {
        Some(Token::Quarter)
    } else if token_pattern(Token::Season).is_prefix_of(fmt) {
        Some(Token::Season)
    } else if token_pattern(Token::Timezone).is_prefix_of(fmt) {
        Some(Token::Timezone)
    } else if token_pattern(Token::UtcOffset).is_prefix_of(fmt) {
        Some(Token::UtcOffset)
    } else if token_pattern(Token::TimezoneFull).is_prefix_of(fmt) {
        Some(Token::TimezoneFull)
    } else if token_pattern(Token::Relative).is_prefix_of(fmt) {
        Some(Token::Relative)
    } else {
        None
    }
}

/// A match pins the matched pattern to the front of the text.
pub proof fn lemma_match_some(fmt: Seq<char>)
    ensures
        match spec_match_at(fmt) {
            Some(t) => token_pattern(t).is_prefix_of(fmt) && 3 <= token_pattern(t).len()
                <= fmt.len(),
            None => true,
        },
{
    if let Some(t) = spec_match_at(fmt) {
        lemma_pattern_shape(t);
    }
}

/// The full weekday name for a weekday index, `0` for Sunday.
pub open spec fn day_name(w: int) -> Seq<char> {
    if w == 0 {
        "Sunday"@
    } else if w == 1 {
        "Monday"@
    } else if w == 2 {
        "Tuesday"@
    } else if w == 3 {
        "Wednesday"@
    } else if w == 4 {
        "Thursday"@
    } else if w == 5 {
        "Friday"@
    } else {
        "Saturday"@
    }
}

/// The abbreviated weekday name for a weekday index, `0` for Sunday.
pub open spec fn day_abb_name(w: int) -> Seq<char> {
    if w == 0 {
        "Sun."@
    } else if w == 1 {
        "Mon."@
    } else if w == 2 {
        "Tue."@
    } else if w == 3 {
        "Wed."@
    } else if w == 4 {
        "Thu."@
    } else if w == 5 {
        "Fri."@
    } else {
        "Sat."@
    }
}

/// The full month name for a zero-based month index.
pub open spec fn month_name(m0: int) -> Seq<char> {
    if m0 == 0 {
        "January"@
    } else if m0 == 1 {
        "February"@
    } else if m0 == 2 {
        "March"@
    } else if m0 == 3 {
        "April"@
    } else if m0 == 4 {
        "May"@
    } else if m0 == 5 {
        "June"@
    } else if m0 == 6 {
        "July"@
    } else if m0 == 7 {
        "August"@
    } else if m0 == 8 {
        "September"@
    } else if m0 == 9 {
        "October"@
    } else if m0 == 10 {
        "November"@
    } else {
        "December"@
    }
}

/// The abbreviated month name for a zero-based month index.
pub open spec fn month_abb_name(m0: int) -> Seq<char> {
    if m0 == 0 {
        "Jan."@
    } else if m0 == 1 {
        "Feb."@
    } else if m0 == 2 {
        "Mar."@
    } else if m0 == 3 {
        "Apr."@
    } else if m0 == 4 {
        "May"@
    } else if m0 == 5 {
        "Jun."@
    } else if m0 == 6 {
        "Jul."@
    } else if m0 == 7 {
        "Aug."@
    } else if m0 == 8 {
        "Sep."@
    } else if m0 == 9 {
        "Oct."@
    } else if m0 == 10 {
        "Nov."@
    } else {
        "Dec."@
    }
}

/// The hour on the 12-hour clock: midnight renders as 12, afternoon hours
/// drop 12, morning hours stand as they are.
pub open spec fn spec_hour12(h: int) -> int {
    if h == 0 {
        12
    } else if h > 12 {
        h - 12
    } else {
        h
    }
}

/// The English ordinal suffix of a day number: `st`, `nd`, `rd` by the last
/// digit, except that 11 through 13 (mod 100) always take `th`.
pub open spec fn spec_ordinal_suffix(d: int) -> Seq<char> {
    if 11 <= d % 100 <= 13 {
        "th"@
    } else if d % 10 == 1 {
        "st"@
    } else if d % 10 == 2 {
        "nd"@
    } else if d % 10 == 3 {
        "rd"@
    } else {
        "th"@
    }
}

/// The fixed Northern-hemisphere season of a zero-based month: March
/// through May is Spring, June through August Summer, September through
/// November Fall, the rest Winter.
pub open spec fn spec_season(m0: int) -> Seq<char> {
    if 2 <= m0 <= 4 {
        "Spring"@
    } else if 5 <= m0 <= 7 {
        "Summer"@
    } else if 8 <= m0 <= 10 {
        "Fall"@
    } else {
        "Winter"@
    }
}

/// A UTC offset in seconds rendered as `±HH:MM`; non-negative offsets,
/// zero included, take `+`.
pub open spec fn spec_offset_str(off: int) -> Seq<char> {
    (if off >= 0 {
        seq!['+']
    } else {
        seq!['-']
    }) + spec_pad2(nat_of(abs_of(off) / 3600)) + seq![':'] + spec_pad2(
        nat_of((abs_of(off) % 3600) / 60),
    )
}

/// The absolute value of an integer.
pub open spec fn abs_of(i: int) -> int {
    if i >= 0 {
        i
    } else {
        -i
    }
}

/// The 12-hour clock rendering `H:MM` of a sample's time.
pub open spec fn time12_str(s: SampleView) -> Seq<char> {
    spec_dec(nat_of(spec_hour12(s.hour24))) + seq![':'] + spec_pad2(nat_of(s.minute))
}

/// The 24-hour clock rendering `HH:MM` of a sample's time.
pub open spec fn time24_str(s: SampleView) -> Seq<char> {
    spec_pad2(nat_of(s.hour24)) + seq![':'] + spec_pad2(nat_of(s.minute))
}

/// The text a token renders to for a given sample.
pub open spec fn token_value(t: Token, s: SampleView) -> Seq<char> {
    match t {
        Token::DayAbb => day_abb_name(s.weekday),
        Token::MonthAbb => month_abb_name(s.month0),
        Token::Day => day_name(s.weekday),
        Token::Month => month_name(s.month0),
        Token::Date => spec_dec(nat_of(s.day)),
        Token::Time => time12_str(s),
        Token::Period => if s.hour24 >= 12 {
            "PM"@
        } else {
            "AM"@
        },
        Token::Year => spec_dec(nat_of(s.year)),
        Token::Time24 => time24_str(s),
        Token::Seconds => spec_pad2(nat_of(s.second)),
        Token::Milliseconds => spec_pad3(nat_of(s.millis)),
        Token::Hours => spec_dec(nat_of(spec_hour12(s.hour24))),
        Token::Hours24 => spec_dec(nat_of(s.hour24)),
        Token::Minutes => spec_pad2(nat_of(s.minute)),
        Token::DayOrdinal => spec_dec(nat_of(s.day)) + spec_ordinal_suffix(s.day),
        Token::MonthNum => spec_dec(nat_of(s.month0 + 1)),
        Token::MonthNumPad => spec_pad2(nat_of(s.month0 + 1)),
        Token::YearShort => spec_pad2(nat_of(s.year % 100)),
        Token::Week => spec_dec(nat_of(s.week)),
        Token::IsoWeek => spec_dec(nat_of(s.week)),
        Token::Quarter => spec_dec(nat_of(s.month0 / 3 + 1)),
        Token::Season => spec_season(s.month0),
        Token::Timezone => s.tz_name,
        Token::UtcOffset => spec_offset_str(s.offset_seconds),
        Token::TimezoneFull => s.tz_name,
        Token::Relative => "just now"@,
    }
}

/// The rendering of a format string for a sample: each recognized token
/// occurrence is replaced by its value, all other text passes through.
pub open spec fn spec_render(fmt: Seq<char>, s: SampleView) -> Seq<char>
    decreases fmt.len(),
    via spec_render_decreases
{
    if fmt.len() == 0 {
        Seq::empty()
    } else {
        match spec_match_at(fmt) {
            Some(t) => token_value(t, s) + spec_render(
                fmt.skip(token_pattern(t).len() as int),
                s,
            ),
            None => seq![fmt[0]] + spec_render(fmt.skip(1), s),
        }
    }
}

#[via_fn]
proof fn spec_render_decreases(fmt: Seq<char>, s: SampleView) {
    if fmt.len() != 0 {
        lemma_match_some(fmt);
    }
}

/// The English ordinal suffix for a day number.
pub fn ordinal_suffix(n: u32) -> (r: &'static str)
    ensures
        r@ == spec_ordinal_suffix(n as int),
{
    let m = n % 100;
    if 11 <= m && m <= 13 {
        "th"
    } else {
        match n % 10 {
            1 => "st",
            2 => "nd",
            3 => "rd",
            _ => "th",
        }
    }
}

/// The fixed Northern-hemisphere season for a zero-based month.
pub fn season(month0: u32) -> (r: &'static str)
    ensures
        r@ == spec_season(month0 as int),
{
    if 2 <= month0 && month0 <= 4 {
        "Spring"
    } else if 5 <= month0 && month0 <= 7 {
        "Summer"
    } else if 8 <= month0 && month0 <= 10 {
        "Fall"
    } else {
        "Winter"
    }
}

fn day_name_str(w: u32) -> (r: &'static str)
    ensures
        r@ == day_name(w as int),
{
    match w {
        0 => "Sunday",
        1 => "Monday",
        2 => "Tuesday",
        3 => "Wednesday",
        4 => "Thursday",
        5 => "Friday",
        _ => "Saturday",
    }
}

fn day_abb_str(w: u32) -> (r: &'static str)
    ensures
        r@ == day_abb_name(w as int),
{
    match w {
        0 => "Sun.",
        1 => "Mon.",
        2 => "Tue.",
        3 => "Wed.",
        4 => "Thu.",
        5 => "Fri.",
        _ => "Sat.",
    }
}

fn month_name_str(m0: u32) -> (r: &'static str)
    ensures
        r@ == month_name(m0 as int),
{
    match m0 {
        0 => "January",
        1 => "February",
        2 => "March",
        3 => "April",
        4 => "May",
        5 => "June",
        6 => "July",
        7 => "August",
        8 => "September",
        9 => "October",
        10 => "November",
        _ => "December",
    }
}

fn month_abb_str(m0: u32) -> (r: &'static str)
    ensures
        r@ == month_abb_name(m0 as int),
{
    match m0 {
        0 => "Jan.",
        1 => "Feb.",
        2 => "Mar.",
        3 => "Apr.",
        4 => "May",
        5 => "Jun.",
        6 => "Jul.",
        7 => "Aug.",
        8 => "Sep.",
        9 => "Oct.",
        10 => "Nov.",
        _ => "Dec.",
    }
}

/// The hour on the 12-hour clock.
pub fn hour12(h: u32) -> (r: u32)
    ensures
        r as int == spec_hour12(h as int),
{
    if h == 0 {
        12
    } else if h > 12 {
        h - 12
    } else {
        h
    }
}

/// Renders the UTC offset `±HH:MM` text for an offset in seconds.
fn offset_chars(off: i32) -> (r: Vec<char>)
    ensures
        r@ == spec_offset_str(off as int),
{
    let wide = off as i64;
    let a: i64 = if wide >= 0 {
        wide
    } else {
        -wide
    };
    let mut v: Vec<char> = Vec::new();
    if wide >= 0 {
        v.push('+');
    } else {
        v.push('-');
    }
    let mut hh = crate::text::u64_to_pad2((a / 3600) as u64);
    v.append(&mut hh);
    v.push(':');
    let mut mm = crate::text::u64_to_pad2(((a % 3600) / 60) as u64);
    v.append(&mut mm);
    proof {
        assert(v@ =~= spec_offset_str(off as int));
    }
    v
}

/// Renders a token's value for a sample.
pub fn token_value_chars(t: Token, s: &crate::sample::TimeSample) -> (r: Vec<char>)
    ensures
        r@ == token_value(t, s@),
{
    match t {
        Token::DayAbb => crate::text::str_chars(day_abb_str(s.weekday)),
        Token::MonthAbb => crate::text::str_chars(month_abb_str(s.month0)),
        Token::Day => crate::text::str_chars(day_name_str(s.weekday)),
        Token::Month => crate::text::str_chars(month_name_str(s.month0)),
        Token::Date => crate::text::u64_to_dec(s.day as u64),
        Token::Time => {
            let mut v = crate::text::u64_to_dec(hour12(s.hour24) as u64);
            v.push(':');
            let mut mm = crate::text::u64_to_pad2(s.minute as u64);
            v.append(&mut mm);
            proof {
                assert(v@ =~= time12_str(s@));
            }
            v
        },
        Token::Period => if s.hour24 >= 12 {
            crate::text::str_chars("PM")
        } else {
            crate::text::str_chars("AM")
        },
        Token::Year => crate::text::u64_to_dec(s.year as u64),
        Token::Time24 => {
            let mut v = crate::text::u64_to_pad2(s.hour24 as u64);
            v.push(':');
            let mut mm = crate::text::u64_to_pad2(s.minute as u64);
            v.append(&mut mm);
            proof {
                assert(v@ =~= time24_str(s@));
            }
            v
        },
        Token::Seconds => crate::text::u64_to_pad2(s.second as u64),
        Token::Milliseconds => crate::text::u64_to_pad3(s.millis as u64),
        Token::Hours => crate::text::u64_to_dec(hour12(s.hour24) as u64),
        Token::Hours24 => crate::text::u64_to_dec(s.hour24 as u64),
        Token::Minutes => crate::text::u64_to_pad2(s.minute as u64),
        Token::DayOrdinal => {
            let mut v = crate::text::u64_to_dec(s.day as u64);
            let mut sfx = crate::text::str_chars(ordinal_suffix(s.day));
            v.append(&mut sfx);
            v
        },
        Token::MonthNum => crate::text::u64_to_dec(s.month0 as u64 + 1),
        Token::MonthNumPad => crate::text::u64_to_pad2(s.month0 as u64 + 1),
        Token::YearShort => crate::text::u64_to_pad2((s.year % 100) as u64),
        Token::Week => crate::text::u64_to_dec(s.week as u64),
        Token::IsoWeek => crate::text::u64_to_dec(s.week as u64),
        Token::Quarter => crate::text::u64_to_dec(s.month0 as u64 / 3 + 1),
        Token::Season => crate::text::str_chars(season(s.month0)),
        Token::Timezone => crate::text::str_chars(s.tz_name.as_str()),
        Token::UtcOffset => offset_chars(s.offset_seconds),
        Token::TimezoneFull => crate::text::str_chars(s.tz_name.as_str()),
        Token::Relative => crate::text::str_chars("just now"),
    }
}

/// The length of a token's placeholder text.
pub fn pattern_len(t: Token) -> (r: usize)
    ensures
        r == token_pattern(t).len(),
{
    match t {
        Token::DayAbb => 9,
        Token::MonthAbb => 11,
        Token::Day => 5,
        Token::Month => 7,
        Token::Date => 6,
        Token::Time => 6,
        Token::Period => 8,
        Token::Year => 6,
        Token::Time24 => 8,
        Token::Seconds => 9,
        Token::Milliseconds => 14,
        Token::Hours => 7,
        Token::Hours24 => 9,
        Token::Minutes => 9,
        Token::DayOrdinal => 13,
        Token::MonthNum => 11,
        Token::MonthNumPad => 15,
        Token::YearShort => 12,
        Token::Week => 6,
        Token::IsoWeek => 10,
        Token::Quarter => 9,
        Token::Season => 8,
        Token::Timezone => 10,
        Token::UtcOffset => 12,
        Token::TimezoneFull => 15,
        Token::Relative => 10,
    }
}

/// Finds the token whose placeholder stands at position `i`, if any.
pub fn match_token(fmt: &Vec<char>, i: usize) -> (r: Option<Token>)
    requires
        i <= fmt@.len(),
    ensures
        r == spec_match_at(fmt@.skip(i as int)),
{
    proof {
        reveal_strlit("{day-abb}");
        reveal_strlit("{month-abb}");
        reveal_strlit("{day}");
        reveal_strlit("{month}");
        reveal_strlit("{date}");
        reveal_strlit("{time}");
        reveal_strlit("{period}");
        reveal_strlit("{year}");
        reveal_strlit("{time24}");
        reveal_strlit("{seconds}");
        reveal_strlit("{milliseconds}");
        reveal_strlit("{hours}");
        reveal_strlit("{hours24}");
        reveal_strlit("{minutes}");
        reveal_strlit("{day-ordinal}");
        reveal_strlit("{month-num}");
        reveal_strlit("{month-num-pad}");
        reveal_strlit("{year-short}");
        reveal_strlit("{week}");
        reveal_strlit("{iso-week}");
        reveal_strlit("{quarter}");
        reveal_strlit("{season}");
        reveal_strlit("{timezone}");
        reveal_strlit("{utc-offset}");
        reveal_strlit("{timezone-full}");
        reveal_strlit("{relative}");
        assert("{day-abb}"@ =~= token_pattern(Token::DayAbb));
        assert("{month-abb}"@ =~= token_pattern(Token::MonthAbb));
        assert("{day}"@ =~= token_pattern(Token::Day));
        assert("{month}"@ =~= token_pattern(Token::Month));
        assert("{date}"@ =~= token_pattern(Token::Date));
        assert("{time}"@ =~= token_pattern(Token::Time));
        assert("{period}"@ =~= token_pattern(Token::Period));
        assert("{year}"@ =~= token_pattern(Token::Year));
        assert("{time24}"@ =~= token_pattern(Token::Time24));
        assert("{seconds}"@ =~= token_pattern(Token::Seconds));
        assert("{milliseconds}"@ =~= token_pattern(Token::Milliseconds));
        assert("{hours}"@ =~= token_pattern(Token::Hours));
        assert("{hours24}"@ =~= token_pattern(Token::Hours24));
        assert("{minutes}"@ =~= token_pattern(Token::Minutes));
        assert("{day-ordinal}"@ =~= token_pattern(Token::DayOrdinal));
        assert("{month-num}"@ =~= token_pattern(Token::MonthNum));
        assert("{month-num-pad}"@ =~= token_pattern(Token::MonthNumPad));
        assert("{year-short}"@ =~= token_pattern(Token::YearShort));
        assert("{week}"@ =~= token_pattern(Token::Week));
        assert("{iso-week}"@ =~= token_pattern(Token::IsoWeek));
        assert("{quarter}"@ =~= token_pattern(Token::Quarter));
        assert("{season}"@ =~= token_pattern(Token::Season));
        assert("{timezone}"@ =~= token_pattern(Token::Timezone));
        assert("{utc-offset}"@ =~= token_pattern(Token::UtcOffset));
        assert("{timezone-full}"@ =~= token_pattern(Token::TimezoneFull));
        assert("{relative}"@ =~= token_pattern(Token::Relative));
    }
    if crate::text::starts_with_at(fmt, i, "{day-abb}") {
        return Some(Token::DayAbb);
    }
    if crate::text::starts_with_at(fmt, i, "{month-abb}") {
        return Some(Token::MonthAbb);
    }
    if crate::text::starts_with_at(fmt, i, "{day}") {
        return Some(Token::Day);
    }
    if crate::text::starts_with_at(fmt, i, "{month}") {
        return Some(Token::Month);
    }
    if crate::text::starts_with_at(fmt, i, "{date}") {
        return Some(Token::Date);
    }
    if crate::text::starts_with_at(fmt, i, "{time}") {
        return Some(Token::Time);
    }
    if crate::text::starts_with_at(fmt, i, "{period}") {
        return Some(Token::Period);
    }
    if crate::text::starts_with_at(fmt, i, "{year}") {
        return Some(Token::Year);
    }
    if crate::text::starts_with_at(fmt, i, "{time24}") {
        return Some(Token::Time24);
    }
    if crate::text::starts_with_at(fmt, i, "{seconds}") {
        return Some(Token::Seconds);
    }
    if crate::text::starts_with_at(fmt, i, "{milliseconds}") {
        return Some(Token::Milliseconds);
    }
    if crate::text::starts_with_at(fmt, i, "{hours}") {
        return Some(Token::Hours);
    }
    if crate::text::starts_with_at(fmt, i, "{hours24}") {
        return Some(Token::Hours24);
    }
    if crate::text::starts_with_at(fmt, i, "{minutes}") {
        return Some(Token::Minutes);
    }
    if crate::text::starts_with_at(fmt, i, "{day-ordinal}") {
        return Some(Token::DayOrdinal);
    }
    if crate::text::starts_with_at(fmt, i, "{month-num}") {
        return Some(Token::MonthNum);
    }
    if crate::text::starts_with_at(fmt, i, "{month-num-pad}") {
        return Some(Token::MonthNumPad);
    }
    if crate::text::starts_with_at(fmt, i, "{year-short}") {
        return Some(Token::YearShort);
    }
    if crate::text::starts_with_at(fmt, i, "{week}") {
        return Some(Token::Week);
    }
    if crate::text::starts_with_at(fmt, i, "{iso-week}") {
        return Some(Token::IsoWeek);
    }
    if crate::text::starts_with_at(fmt, i, "{quarter}") {
        return Some(Token::Quarter);
    }
    if crate::text::starts_with_at(fmt, i, "{season}") {
        return Some(Token::Season);
    }
    if crate::text::starts_with_at(fmt, i, "{timezone}") {
        return Some(Token::Timezone);
    }
    if crate::text::starts_with_at(fmt, i, "{utc-offset}") {
        return Some(Token::UtcOffset);
    }
    if crate::text::starts_with_at(fmt, i, "{timezone-full}") {
        return Some(Token::TimezoneFull);
    }
    if crate::text::starts_with_at(fmt, i, "{relative}") {
        return Some(Token::Relative);
    }
    None
}

/// Renders a format string, character vector in, character vector out.
pub fn render_tokens(fmt: &Vec<char>, s: &crate::sample::TimeSample) -> (out: Vec<char>)
    ensures
        out@ == spec_render(fmt@, s@),
{
    let n = fmt.len();
    let mut out: Vec<char> = Vec::new();
    let mut i: usize = 0;
    proof {
        assert(fmt@.skip(0) =~= fmt@);
        assert(Seq::<char>::empty() + spec_render(fmt@, s@) =~= spec_render(fmt@, s@));
    }
    while i < n
        invariant
            i <= n,
            n == fmt@.len(),
            spec_render(fmt@, s@) == out@ + spec_render(fmt@.skip(i as int), s@),
        decreases n - i,
    {
        let ghost rest = fmt@.skip(i as int);
        match match_token(fmt, i) {
            Some(t) => {
                let mut v = token_value_chars(t, s);
                let l = pattern_len(t);
                proof {
                    lemma_match_some(rest);
                    assert(rest.skip(l as int) =~= fmt@.skip(i + l));
                    assert(spec_render(rest, s@) == token_value(t, s@) + spec_render(
                        fmt@.skip(i + l),
                        s@,
                    ));
                    assert((out@ + v@) + spec_render(fmt@.skip(i + l), s@) =~= out@ + (v@
                        + spec_render(fmt@.skip(i + l), s@)));
                }
                out.append(&mut v);
                i = i + l;
            },
            None => {
                let c = fmt[i];
                proof {
                    assert(rest[0] == fmt@[i as int]);
                    assert(rest.skip(1) =~= fmt@.skip(i + 1));
                    assert((out@ + seq![c]) + spec_render(fmt@.skip(i + 1), s@) =~= out@ + (
                    seq![c] + spec_render(fmt@.skip(i + 1), s@)));
                }
                out.push(c);
                i = i + 1;
            },
        }
    }
    proof {
        assert(fmt@.skip(n as int) =~= Seq::<char>::empty());
        assert(out@ + Seq::<char>::empty() =~= out@);
    }
    out
}

/// A format string in which no position opens a recognized token renders
/// to itself, whatever the sample.
pub proof fn lemma_render_without_tokens(fmt: Seq<char>, s: SampleView)
    requires
        forall|i: int| 0 <= i <= fmt.len() ==> spec_match_at(#[trigger] fmt.skip(i)) is None,
    ensures
        spec_render(fmt, s) == fmt,
    decreases fmt.len(),
{
    if fmt.len() == 0 {
        assert(spec_render(fmt, s) =~= fmt);
    } else {
        assert(fmt.skip(0) =~= fmt);
        assert(spec_match_at(fmt.skip(0)) is None);
        assert forall|i: int| 0 <= i <= fmt.skip(1).len() implies spec_match_at(
            #[trigger] fmt.skip(1).skip(i),
        ) is None by {
            assert(fmt.skip(1).skip(i) =~= fmt.skip(i + 1));
            assert(spec_match_at(fmt.skip(i + 1)) is None);
        }
        lemma_render_without_tokens(fmt.skip(1), s);
        assert(seq![fmt[0]] + fmt.skip(1) =~= fmt);
    }
}

/// A format string without `{` holds no token occurrence at all, so it
/// renders to itself, whatever the sample.
pub proof fn lemma_render_no_brace(fmt: Seq<char>, s: SampleView)
    requires
        forall|i: int| 0 <= i < fmt.len() ==> #[trigger] fmt[i] != '{',
    ensures
        spec_render(fmt, s) == fmt,
{
    assert forall|i: int| 0 <= i <= fmt.len() implies spec_match_at(#[trigger] fmt.skip(i)) is None by {
        if spec_match_at(fmt.skip(i)) is Some {
            lemma_match_some(fmt.skip(i));
            let t = spec_match_at(fmt.skip(i))->0;
            lemma_pattern_shape(t);
            assert(token_pattern(t)[0] == fmt.skip(i)[0]);
            assert(fmt.skip(i)[0] == fmt[i]);
            assert(fmt[i] == '{');
            assert(false);
        }
    }
    lemma_render_without_tokens(fmt, s);
}

/// A recognized token at the front of the text is what matches there.
pub proof fn lemma_match_at_token(t: Token, rest: Seq<char>)
    ensures
        spec_match_at(token_pattern(t) + rest) == Some(t),
{
    let fmt = token_pattern(t) + rest;
    lemma_pattern_shape(t);
    assert(token_pattern(t).is_prefix_of(fmt)) by {
        assert(token_pattern(t) =~= fmt.subrange(0, token_pattern(t).len() as int));
    }
    lemma_match_some(fmt);
    match spec_match_at(fmt) {
        Some(u) => {
            lemma_pattern_shape(u);
            lemma_shaped_prefix(token_pattern(u), token_pattern(t), rest);
            lemma_pattern_injective(u, t);
        },
        None => {
            assert(false);
        },
    }
}

/// Substituting a token at the front of a format string contributes exactly
/// that token's value for the sample, whatever follows: so every occurrence
/// of one token in one format string renders to the same text.
pub proof fn lemma_token_render_step(t: Token, rest: Seq<char>, s: SampleView)
    ensures
        spec_render(token_pattern(t) + rest, s) == token_value(t, s) + spec_render(rest, s),
{
    let fmt = token_pattern(t) + rest;
    lemma_match_at_token(t, rest);
    lemma_pattern_shape(t);
    assert(fmt.skip(token_pattern(t).len() as int) =~= rest);
}

/// The same token twice in one format string yields two identical
/// renderings of that token's value.
pub proof fn lemma_same_token_twice(t: Token, rest: Seq<char>, s: SampleView)
    ensures
        spec_render(token_pattern(t) + token_pattern(t) + rest, s) == token_value(t, s)
            + token_value(t, s) + spec_render(rest, s),
{
    assert(token_pattern(t) + token_pattern(t) + rest =~= token_pattern(t) + (token_pattern(t)
        + rest));
    lemma_token_render_step(t, token_pattern(t) + rest, s);
    lemma_token_render_step(t, rest, s);
    assert(token_value(t, s) + (token_value(t, s) + spec_render(rest, s)) =~= token_value(t, s)
        + token_value(t, s) + spec_render(rest, s));
}

/// For a sample whose UTC offset is zero - the UTC fallback in particular -
/// the `{utc-offset}` token renders `+00:00`.
pub proof fn lemma_utc_offset_token(s: SampleView)
    requires
        s.offset_seconds == 0,
    ensures
        token_value(Token::UtcOffset, s) == "+00:00"@,
{
    reveal_strlit("+00:00");
    assert(spec_dec(0) =~= seq!['0']);
    assert(spec_pad2(0) =~= seq!['0', '0']);
    assert(token_value(Token::UtcOffset, s) =~= "+00:00"@);
}

/// The format string that is exactly `{utc-offset}` renders `+00:00` for
/// any sample whose offset is zero: with the UTC fallback that
/// `resolve_sample` promises for an unresolvable timezone identifier, such
/// an identifier yields `+00:00` without error.
pub proof fn lemma_offset_format_renders_zero(s: SampleView)
    requires
        s.offset_seconds == 0,
    ensures
        spec_render(token_pattern(Token::UtcOffset), s) == "+00:00"@,
{
    assert(token_pattern(Token::UtcOffset) + Seq::<char>::empty() =~= token_pattern(
        Token::UtcOffset,
    ));
    lemma_token_render_step(Token::UtcOffset, Seq::empty(), s);
    lemma_utc_offset_token(s);
    assert(spec_render(Seq::<char>::empty(), s) =~= Seq::<char>::empty());
    assert(token_value(Token::UtcOffset, s) + Seq::<char>::empty() =~= token_value(
        Token::UtcOffset,
        s,
    ));
}

} // verus!
