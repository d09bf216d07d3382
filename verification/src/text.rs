//! Character-level text utilities: decimal rendering with zero padding,
//! and conversions between `&str`, `String` and `Vec<char>`.

use vstd::prelude::*;
use vstd::string::StrSliceExecFns;

verus! {

/// The decimal digit character for a value in `0 ..= 9`; `'9'` off range.
pub open spec fn spec_digit(d: int) -> char {
    if d == 0 {
        '0'
    } else if d == 1 {
        '1'
    } else if d == 2 {
        '2'
    } else if d == 3 {
        '3'
    } else if d == 4 {
        '4'
    } else if d == 5 {
        '5'
    } else if d == 6 {
        '6'
    } else if d == 7 {
        '7'
    } else if d == 8 {
        '8'
    } else {
        '9'
    }
}

/// The decimal rendering of a natural number, without padding.
pub open spec fn spec_dec(n: nat) -> Seq<char>
    decreases n,
{
    if n < 10 {
        seq![spec_digit(n as int)]
    } else {
        spec_dec(n / 10) + seq![spec_digit((n % 10) as int)]
    }
}

/// Decimal rendering padded with zeros to at least two digits.
pub open spec fn spec_pad2(n: nat) -> Seq<char> {
    if n < 10 {
        seq!['0'] + spec_dec(n)
    } else {
        spec_dec(n)
    }
}

/// Decimal rendering padded with zeros to at least three digits.
pub open spec fn spec_pad3(n: nat) -> Seq<char> {
    if n < 10 {
        seq!['0', '0'] + spec_dec(n)
    } else if n < 100 {
        seq!['0'] + spec_dec(n)
    } else {
        spec_dec(n)
    }
}

/// Decimal rendering padded with zeros to at least four digits.
pub open spec fn spec_pad4(n: nat) -> Seq<char> {
    if n < 10 {
        seq!['0', '0', '0'] + spec_dec(n)
    } else if n < 100 {
        seq!['0', '0'] + spec_dec(n)
    } else if n < 1000 {
        seq!['0'] + spec_dec(n)
    } else {
        spec_dec(n)
    }
}

fn digit_char(d: u64) -> (c: char)
    requires
        d < 10,
    ensures
        c == spec_digit(d as int),
{
    match d {
        0 => '0',
        1 => '1',
        2 => '2',
        3 => '3',
        4 => '4',
        5 => '5',
        6 => '6',
        7 => '7',
        8 => '8',
        _ => '9',
    }
}

/// Renders a number in decimal, most significant digit first.
pub fn u64_to_dec(n: u64) -> (r: Vec<char>)
    ensures
        r@ == spec_dec(n as nat),
    decreases n,
{
    if n < 10 {
        let mut v: Vec<char> = Vec::new();
        v.push(digit_char(n));
        proof {
            assert(v@ =~= spec_dec(n as nat));
        }
        v
    } else {
        let mut v = u64_to_dec(n / 10);
        v.push(digit_char(n % 10));
        proof {
            assert(v@ =~= spec_dec(n as nat));
        }
        v
    }
}

/// Renders a number in decimal, zero padded to at least two digits.
pub fn u64_to_pad2(n: u64) -> (r: Vec<char>)
    ensures
        r@ == spec_pad2(n as nat),
{
    let mut v: Vec<char> = Vec::new();
    if n < 10 {
        v.push('0');
    }
    let mut d = u64_to_dec(n);
    v.append(&mut d);
    proof {
        assert(v@ =~= spec_pad2(n as nat));
    }
    v
}

/// Renders a number in decimal, zero padded to at least three digits.
pub fn u64_to_pad3(n: u64) -> (r: Vec<char>)
    ensures
        r@ == spec_pad3(n as nat),
{
    let mut v: Vec<char> = Vec::new();
    if n < 10 {
        v.push('0');
        v.push('0');
    } else if n < 100 {
        v.push('0');
    }
    let mut d = u64_to_dec(n);
    v.append(&mut d);
    proof {
        assert(v@ =~= spec_pad3(n as nat));
    }
    v
}

/// Renders a number in decimal, zero padded to at least four digits.
pub fn u64_to_pad4(n: u64) -> (r: Vec<char>)
    ensures
        r@ == spec_pad4(n as nat),
{
    let mut v: Vec<char> = Vec::new();
    if n < 10 {
        v.push('0');
        v.push('0');
        v.push('0');
    } else if n < 100 {
        v.push('0');
        v.push('0');
    } else if n < 1000 {
        v.push('0');
    }
    let mut d = u64_to_dec(n);
    v.append(&mut d);
    proof {
        assert(v@ =~= spec_pad4(n as nat));
    }
    v
}

/// Collects the characters of a string slice into a vector.
pub fn str_chars(s: &str) -> (r: Vec<char>)
    ensures
        r@ == s@,
{
    let n = s.unicode_len();
    let mut r: Vec<char> = Vec::new();
    let mut i: usize = 0;
    while i < n
        invariant
            i <= n,
            n == s@.len(),
            r@ == s@.subrange(0, i as int),
        decreases n - i,
    {
        let c = s.get_char(i);
        r.push(c);
        i = i + 1;
        proof {
            assert(r@ =~= s@.subrange(0, i as int));
        }
    }
    proof {
        assert(r@ =~= s@);
    }
    r
}

/// Relies on std's `FromIterator for String` (`collect` over `char`s): the
/// resulting string holds exactly the given characters in order.
#[verifier::external_body]
pub fn chars_to_string(v: &Vec<char>) -> (r: String)
    ensures
        r@ == v@,
{
    v.iter().collect()
}

/// Compares the characters of a vector with those of a string slice.
pub fn chars_eq_str(v: &Vec<char>, s: &str) -> (r: bool)
    ensures
        r == (v@ == s@),
{
    let n = s.unicode_len();
    if v.len() != n {
        proof {
            assert(v@ != s@);
        }
        return false;
    }
    let mut i: usize = 0;
    while i < n
        invariant
            i <= n,
            n == s@.len(),
            v@.len() == n,
            forall|k: int| 0 <= k < i ==> v@[k] == s@[k],
        decreases n - i,
    {
        if v[i] != s.get_char(i) {
            proof {
                assert(v@[i as int] != s@[i as int]);
                assert(v@ != s@);
            }
            return false;
        }
        i = i + 1;
    }
    proof {
        assert(v@ =~= s@);
    }
    true
}

/// The natural number a non-negative integer stands for; zero off range.
pub open spec fn nat_of(i: int) -> nat {
    if i >= 0 {
        i as nat
    } else {
        0
    }
}

/// True when the characters of `pat` stand in `v` starting at index `i`.
pub fn starts_with_at(v: &Vec<char>, i: usize, pat: &str) -> (r: bool)
    requires
        i <= v@.len(),
    ensures
        r == pat@.is_prefix_of(v@.skip(i as int)),
{
    let m = pat.unicode_len();
    let vlen = v.len();
    if vlen - i < m {
        proof {
            assert(v@.skip(i as int).len() < pat@.len());
        }
        return false;
    }
    let mut j: usize = 0;
    while j < m
        invariant
            j <= m,
            m == pat@.len(),
            vlen == v@.len(),
            i + m <= vlen,
            forall|k: int| 0 <= k < j ==> pat@[k] == v@[i + k],
        decreases m - j,
    {
        if pat.get_char(j) != v[i + j] {
            proof {
                assert(pat@[j as int] != v@.skip(i as int)[j as int]);
                assert(!pat@.is_prefix_of(v@.skip(i as int)));
            }
            return false;
        }
        j = j + 1;
    }
    proof {
        assert(pat@ =~= v@.skip(i as int).subrange(0, pat@.len() as int));
    }
    true
}

} // verus!
