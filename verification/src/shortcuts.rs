//! The shortcut descriptor parser.
//!
//! A key-combination string such as `Ctrl+Alt+T` is split on `+`; each
//! segment is trimmed of ASCII whitespace, lower-cased (ASCII case folding)
//! and classified as a modifier alias, a single letter `A`-`Z`, or a
//! function key `f1`-`f12`. Modifiers accumulate; the last key segment
//! wins; any other segment makes the whole parse fail. A combination
//! without a key segment is invalid: a descriptor always holds one key.

use vstd::prelude::*;
use crate::text::{chars_eq_str, str_chars};

verus! {

/// The key of a shortcut: a letter or a function key.
#[derive(Clone, Copy, Debug, PartialEq, Eq, Structural)]
pub enum ShortcutKey {
    /// A letter key, `'A'` through `'Z'`.
    Letter(char),
    /// A function key index, `1` through `12`.
    Function(u8),
}

impl ShortcutKey {
    /// The key lies in its supported range.
    pub open spec fn wf(self) -> bool {
        match self {
            ShortcutKey::Letter(c) => 'A' <= c <= 'Z',
            ShortcutKey::Function(n) => 1 <= n <= 12,
        }
    }
}

/// A set of modifier flags plus exactly one key.
#[derive(Clone, Copy, Debug, PartialEq, Eq, Structural)]
pub struct ShortcutDescriptor {
    /// Command / Meta modifier.
    pub meta: bool,
    /// Control modifier.
    pub control: bool,
    /// Alt / Option modifier.
    pub alt: bool,
    /// Shift modifier.
    pub shift: bool,
    /// The key itself.
    pub key: ShortcutKey,
}

impl ShortcutDescriptor {
    /// The descriptor's key lies in its supported range.
    pub open spec fn wf(self) -> bool {
        self.key.wf()
    }
}

/// What one `+`-separated segment stands for.
#[derive(Clone, Copy, Debug, PartialEq, Eq, Structural)]
pub enum SegClass {
    /// Command / Meta alias.
    Meta,
    /// Control alias.
    Control,
    /// Alt / Option alias.
    Alt,
    /// Shift alias.
    Shift,
    /// A key segment.
    Key(ShortcutKey),
    /// An unrecognized segment: the whole parse fails.
    Bad,
}

/// ASCII whitespace, as trimming removes it.
pub open spec fn is_space(c: char) -> bool {
    c == ' ' || c == '\t' || c == '\n' || c == '\r'
}

/// The sequence without its leading ASCII whitespace.
pub open spec fn trim_front(s: Seq<char>) -> Seq<char>
    decreases s.len(),
{
    if s.len() > 0 && is_space(s[0]) {
        trim_front(s.skip(1))
    } else {
        s
    }
}

/// The sequence without its trailing ASCII whitespace.
pub open spec fn trim_back(s: Seq<char>) -> Seq<char>
    decreases s.len(),
{
    if s.len() > 0 && is_space(s[s.len() - 1]) {
        trim_back(s.take(s.len() - 1))
    } else {
        s
    }
}

/// The sequence without leading and trailing ASCII whitespace.
pub open spec fn trim_seq(s: Seq<char>) -> Seq<char> {
    trim_back(trim_front(s))
}

/// An upper-case ASCII letter folded to lower case; all else unchanged.
pub open spec fn lower_char(c: char) -> char {
    if 'A' <= c <= 'Z' {
        ((c as u8) + 32) as char
    } else {
        c
    }
}

/// A lower-case ASCII letter folded to upper case; all else unchanged.
pub open spec fn upper_char(c: char) -> char {
    if 'a' <= c <= 'z' {
        ((c as u8) - 32) as char
    } else {
        c
    }
}

/// ASCII lower-casing of a sequence, character by character.
pub open spec fn lower_seq(s: Seq<char>) -> Seq<char> {
    s.map_values(|c: char| lower_char(c))
}

/// All characters are ASCII digits.
pub open spec fn all_digits(s: Seq<char>) -> bool {
    forall|i: int| 0 <= i < s.len() ==> '0' <= #[trigger] s[i] <= '9'
}

/// The number an ASCII digit sequence denotes, most significant first.
pub open spec fn digits_value(s: Seq<char>) -> int
    decreases s.len(),
{
    if s.len() == 0 {
        0
    } else {
        digits_value(s.take(s.len() - 1)) * 10 + (s.last() as int - '0' as int)
    }
}

/// How one trimmed, lower-cased segment classifies: a modifier alias, a
/// single letter folded to upper case, a function key `f` followed by
/// digits denoting 1 through 12, or nothing recognizable.
pub open spec fn spec_classify(seg: Seq<char>) -> SegClass {
    let t = lower_seq(trim_seq(seg));
    if t == "cmd"@ || t == "meta"@ || t == "command"@ {
        SegClass::Meta
    } else if t == "ctrl"@ || t == "control"@ {
        SegClass::Control
    } else if t == "alt"@ || t == "option"@ {
        SegClass::Alt
    } else if t == "shift"@ {
        SegClass::Shift
    } else if t.len() == 1 {
        if 'a' <= t[0] <= 'z' {
            SegClass::Key(ShortcutKey::Letter(upper_char(t[0])))
        } else {
            SegClass::Bad
        }
    } else if t.len() >= 2 && t[0] == 'f' && all_digits(t.skip(1)) && 1 <= digits_value(t.skip(1))
        <= 12 {
        SegClass::Key(ShortcutKey::Function(digits_value(t.skip(1)) as u8))
    } else {
        SegClass::Bad
    }
}

/// The walk over the input: `seg` is the segment being collected, the flags
/// and `key` what earlier segments produced. At each `+` and at the end the
/// collected segment is classified; an unrecognized segment fails the whole
/// parse, and a parse without a key segment yields no descriptor.
pub open spec fn spec_parse_loop(
    s: Seq<char>,
    seg: Seq<char>,
    meta: bool,
    control: bool,
    alt: bool,
    shift: bool,
    key: Option<ShortcutKey>,
) -> Option<ShortcutDescriptor>
    decreases s.len(),
{
    if s.len() == 0 {
        match spec_classify(seg) {
            SegClass::Meta => spec_finish(true, control, alt, shift, key),
            SegClass::Control => spec_finish(meta, true, alt, shift, key),
            SegClass::Alt => spec_finish(meta, control, true, shift, key),
            SegClass::Shift => spec_finish(meta, control, alt, true, key),
            SegClass::Key(k) => spec_finish(meta, control, alt, shift, Some(k)),
            SegClass::Bad => None,
        }
    } else if s[0] == '+' {
        match spec_classify(seg) {
            SegClass::Meta => spec_parse_loop(s.skip(1), Seq::empty(), true, control, alt, shift, key),
            SegClass::Control => spec_parse_loop(
                s.skip(1),
                Seq::empty(),
                meta,
                true,
                alt,
                shift,
                key,
            ),
            SegClass::Alt => spec_parse_loop(s.skip(1), Seq::empty(), meta, control, true, shift, key),
            SegClass::Shift => spec_parse_loop(
                s.skip(1),
                Seq::empty(),
                meta,
                control,
                alt,
                true,
                key,
            ),
            SegClass::Key(k) => spec_parse_loop(
                s.skip(1),
                Seq::empty(),
                meta,
                control,
                alt,
                shift,
                Some(k),
            ),
            SegClass::Bad => None,
        }
    } else {
        spec_parse_loop(s.skip(1), seg.push(s[0]), meta, control, alt, shift, key)
    }
}

/// The descriptor the accumulated state yields: one only when a key was
/// found.
pub open spec fn spec_finish(
    meta: bool,
    control: bool,
    alt: bool,
    shift: bool,
    key: Option<ShortcutKey>,
) -> Option<ShortcutDescriptor> {
    match key {
        Some(k) => Some(ShortcutDescriptor { meta, control, alt, shift, key: k }),
        None => None,
    }
}

/// What parsing a key-combination string yields.
pub open spec fn spec_parse_shortcut(s: Seq<char>) -> Option<ShortcutDescriptor> {
    spec_parse_loop(s, Seq::empty(), false, false, false, false, None)
}

/// The letter key a character maps to: its own letter for `A` through `Z`,
/// nothing otherwise.
pub fn letter_to_code(ch: char) -> (r: Option<ShortcutKey>)
    ensures
        r == if 'A' <= ch <= 'Z' {
            Some(ShortcutKey::Letter(ch))
        } else {
            None::<ShortcutKey>
        },
        r matches Some(k) ==> k.wf(),
{
    if 'A' <= ch && ch <= 'Z' {
        Some(ShortcutKey::Letter(ch))
    } else {
        None
    }
}

/// The function key an index maps to: `F1` through `F12`, nothing beyond.
pub fn fkey_to_code(n: u8) -> (r: Option<ShortcutKey>)
    ensures
        r == if 1 <= n <= 12 {
            Some(ShortcutKey::Function(n))
        } else {
            None::<ShortcutKey>
        },
        r matches Some(k) ==> k.wf(),
{
    if 1 <= n && n <= 12 {
        Some(ShortcutKey::Function(n))
    } else {
        None
    }
}

fn is_space_char(c: char) -> (r: bool)
    ensures
        r == is_space(c),
{
    c == ' ' || c == '\t' || c == '\n' || c == '\r'
}

fn lower_char_exec(c: char) -> (r: char)
    ensures
        r == lower_char(c),
{
    if 'A' <= c && c <= 'Z' {
        ((c as u8) + 32) as char
    } else {
        c
    }
}

fn upper_char_exec(c: char) -> (r: char)
    ensures
        r == upper_char(c),
{
    if 'a' <= c && c <= 'z' {
        ((c as u8) - 32) as char
    } else {
        c
    }
}

/// Trims ASCII whitespace off both ends and lower-cases what is left.
fn lower_trim(seg: &Vec<char>) -> (t: Vec<char>)
    ensures
        t@ == lower_seq(trim_seq(seg@)),
{
    let n = seg.len();
    let mut i: usize = 0;
    proof {
        assert(seg@.skip(0) =~= seg@);
    }
    while i < n && is_space_char(seg[i])
        invariant
            i <= n,
            n == seg@.len(),
            trim_front(seg@.skip(i as int)) == trim_front(seg@),
        decreases n - i,
    {
        proof {
            assert(seg@.skip(i as int).skip(1) =~= seg@.skip(i + 1));
        }
        i = i + 1;
    }
    proof {
        assert(trim_front(seg@) == seg@.skip(i as int));
    }
    let mut j: usize = n;
    proof {
        assert(seg@.skip(i as int).take(n - i) =~= seg@.skip(i as int));
    }
    while j > i && is_space_char(seg[j - 1])
        invariant
            i <= j <= n,
            n == seg@.len(),
            trim_front(seg@) == seg@.skip(i as int),
            trim_back(seg@.skip(i as int).take(j - i)) == trim_back(seg@.skip(i as int)),
        decreases j,
    {
        proof {
            let cur = seg@.skip(i as int).take(j - i);
            assert(cur[cur.len() - 1] == seg@[j - 1]);
            assert(cur.take(cur.len() - 1) =~= seg@.skip(i as int).take(j - 1 - i));
        }
        j = j - 1;
    }
    proof {
        let cur = seg@.skip(i as int).take(j - i);
        assert(trim_back(cur) == cur);
        assert(trim_seq(seg@) == seg@.skip(i as int).take(j - i));
    }
    let mut t: Vec<char> = Vec::new();
    let mut k: usize = i;
    while k < j
        invariant
            i <= k <= j <= n,
            n == seg@.len(),
            trim_seq(seg@) == seg@.skip(i as int).take(j - i),
            t@.len() == k - i,
            forall|p: int| 0 <= p < t@.len() ==> t@[p] == lower_char(seg@[i + p]),
        decreases j - k,
    {
        t.push(lower_char_exec(seg[k]));
        k = k + 1;
    }
    proof {
        assert(t@ =~= lower_seq(trim_seq(seg@)));
    }
    t
}

/// Classifies one raw segment of the combination string.
fn classify_seg(seg: &Vec<char>) -> (r: SegClass)
    ensures
        r == spec_classify(seg@),
        r matches SegClass::Key(k) ==> k.wf(),
{
    let t = lower_trim(seg);
    if chars_eq_str(&t, "cmd") || chars_eq_str(&t, "meta") || chars_eq_str(&t, "command") {
        return SegClass::Meta;
    }
    if chars_eq_str(&t, "ctrl") || chars_eq_str(&t, "control") {
        return SegClass::Control;
    }
    if chars_eq_str(&t, "alt") || chars_eq_str(&t, "option") {
        return SegClass::Alt;
    }
    if chars_eq_str(&t, "shift") {
        return SegClass::Shift;
    }
    if t.len() == 1 {
        let c = t[0];
        if 'a' <= c && c <= 'z' {
            return SegClass::Key(ShortcutKey::Letter(upper_char_exec(c)));
        }
        return SegClass::Bad;
    }
    if t.len() >= 2 && t[0] == 'f' {
        match parse_fkey_digits(&t) {
            Some(n) => {
                return SegClass::Key(ShortcutKey::Function(n));
            },
            None => {
                return SegClass::Bad;
            },
        }
    }
    SegClass::Bad
}

/// Reads the digits after the leading `f` of a function-key segment: the
/// index comes back exactly when all of them are digits denoting 1 - 12.
fn parse_fkey_digits(t: &Vec<char>) -> (r: Option<u8>)
    requires
        t@.len() >= 2,
    ensures
        r is Some <==> all_digits(t@.skip(1)) && 1 <= digits_value(t@.skip(1)) <= 12,
        r matches Some(n) ==> 1 <= n <= 12 && n as int == digits_value(t@.skip(1)),
{
    let m = t.len();
    let mut value: u32 = 0;
    let mut p: usize = 1;
    while p < m
        invariant
            1 <= p <= m,
            m == t@.len(),
            forall|q: int| 1 <= q < p ==> '0' <= #[trigger] t@[q] <= '9',
            value <= 209,
            digits_value(t@.subrange(1, p as int)) <= 20 ==> value == digits_value(
                t@.subrange(1, p as int),
            ),
            digits_value(t@.subrange(1, p as int)) > 20 ==> value > 20,
            digits_value(t@.subrange(1, p as int)) >= 0,
        decreases m - p,
    {
        let c = t[p];
        if !('0' <= c && c <= '9') {
            proof {
                let su = t@.skip(1);
                assert(su[p - 1] == t@[p as int]);
                assert(!('0' <= su[p - 1] <= '9'));
                assert(!all_digits(su));
            }
            return None;
        }
        proof {
            let pre = t@.subrange(1, p as int);
            let cur = t@.subrange(1, p + 1);
            assert(cur.take(cur.len() - 1) =~= pre);
            assert(cur.last() == t@[p as int]);
            assert(digits_value(cur) == digits_value(pre) * 10 + (t@[p as int] as int
                - '0' as int));
        }
        let d = (c as u32) - 48;
        proof {
            assert('0' as int == 48);
            assert(d == t@[p as int] as int - 48);
        }
        if value > 20 {
            value = 21;
        } else {
            value = value * 10 + d;
        }
        p = p + 1;
    }
    proof {
        assert(t@.subrange(1, m as int) =~= t@.skip(1));
        assert(forall|q: int|
            0 <= q < t@.skip(1).len() ==> #[trigger] t@.skip(1)[q] == t@[q + 1]);
    }
    if 1 <= value && value <= 12 {
        Some(value as u8)
    } else {
        None
    }
}

/// Parses a key-combination string into a modifier-set plus key
/// descriptor; yields nothing when any segment is unrecognized or no key
/// segment is present.
pub fn parse_shortcut(s: &str) -> (r: Option<ShortcutDescriptor>)
    ensures
        r == spec_parse_shortcut(s@),
        r matches Some(d) ==> d.wf(),
{
    let chars = str_chars(s);
    let n = chars.len();
    let mut meta = false;
    let mut control = false;
    let mut alt = false;
    let mut shift = false;
    let mut key: Option<ShortcutKey> = None;
    let mut seg: Vec<char> = Vec::new();
    let mut i: usize = 0;
    proof {
        assert(chars@.skip(0) =~= chars@);
    }
    while i < n
        invariant
            i <= n,
            n == chars@.len(),
            chars@ == s@,
            spec_parse_shortcut(s@) == spec_parse_loop(
                chars@.skip(i as int),
                seg@,
                meta,
                control,
                alt,
                shift,
                key,
            ),
            key matches Some(k) ==> k.wf(),
        decreases n - i,
    {
        let ghost rest = chars@.skip(i as int);
        let c = chars[i];
        proof {
            assert(rest[0] == c);
            assert(rest.skip(1) =~= chars@.skip(i + 1));
        }
        if c == '+' {
            match classify_seg(&seg) {
                SegClass::Meta => {
                    meta = true;
                },
                SegClass::Control => {
                    control = true;
                },
                SegClass::Alt => {
                    alt = true;
                },
                SegClass::Shift => {
                    shift = true;
                },
                SegClass::Key(k) => {
                    key = Some(k);
                },
                SegClass::Bad => {
                    return None;
                },
            }
            seg = Vec::new();
        } else {
            seg.push(c);
        }
        i = i + 1;
    }
    proof {
        assert(chars@.skip(n as int) =~= Seq::<char>::empty());
    }
    match classify_seg(&seg) {
        SegClass::Meta => {
            meta = true;
        },
        SegClass::Control => {
            control = true;
        },
        SegClass::Alt => {
            alt = true;
        },
        SegClass::Shift => {
            shift = true;
        },
        SegClass::Key(k) => {
            key = Some(k);
        },
        SegClass::Bad => {
            return None;
        },
    }
    match key {
        Some(k) => Some(ShortcutDescriptor { meta, control, alt, shift, key: k }),
        None => None,
    }
}

} // verus!
