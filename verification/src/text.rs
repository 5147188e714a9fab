//! Character-level helpers shared by the discovery-reply parser, the SOAP
//! codec and the address formatter: decimal rendering and parsing of
//! unsigned numbers, and scanning of digit runs in character sequences.

use vstd::prelude::*;

verus! {

/// An ASCII decimal digit.
pub open spec fn spec_is_digit(c: char) -> bool {
    48 <= c as int <= 57
}

/// The numeric value of an ASCII decimal digit.
pub open spec fn spec_digit_val(c: char) -> nat
    recommends
        spec_is_digit(c),
{
    (c as int - 48) as nat
}

/// Every character of `s` is an ASCII decimal digit.
pub open spec fn spec_all_digits(s: Seq<char>) -> bool {
    forall|k: int| 0 <= k < s.len() ==> spec_is_digit(#[trigger] s[k])
}

/// The number denoted by a sequence of decimal digits (most significant
/// digit first). Leading zeros are allowed and do not change the value.
pub open spec fn spec_digits_to_nat(s: Seq<char>) -> nat
    recommends
        spec_all_digits(s),
    decreases s.len(),
{
    if s.len() == 0 {
        0
    } else {
        spec_digits_to_nat(s.drop_last()) * 10 + spec_digit_val(s.last())
    }
}

/// The character for a single decimal digit value.
pub open spec fn spec_digit_char(d: nat) -> char
    recommends
        d < 10,
{
    if d == 0 {
        '0'
    } else if d == 1 {
        '1'
    } else if d == 2 {
        '2'
    } else if d == 3 {
        '3'
    } else if d == 4 {
        '4'
    } else if d == 5 {
        '5'
    } else if d == 6 {
        '6'
    } else if d == 7 {
        '7'
    } else if d == 8 {
        '8'
    } else {
        '9'
    }
}

/// The canonical decimal rendering of `n`: no leading zeros, except that
/// zero itself is rendered as a single `'0'`.
pub open spec fn spec_dec(n: nat) -> Seq<char>
    decreases n,
{
    if n < 10 {
        seq![spec_digit_char(n)]
    } else {
        spec_dec(n / 10).push(spec_digit_char(n % 10))
    }
}

fn digit_str(d: u32) -> (r: &'static str)
    requires
        d < 10,
    ensures
        r@ == seq![spec_digit_char(d as nat)],
{
    let r: &'static str = if d == 0 {
        "0"
    } else if d == 1 {
        "1"
    } else if d == 2 {
        "2"
    } else if d == 3 {
        "3"
    } else if d == 4 {
        "4"
    } else if d == 5 {
        "5"
    } else if d == 6 {
        "6"
    } else if d == 7 {
        "7"
    } else if d == 8 {
        "8"
    } else {
        "9"
    };
    proof {
        reveal_strlit("0");
        reveal_strlit("1");
        reveal_strlit("2");
        reveal_strlit("3");
        reveal_strlit("4");
        reveal_strlit("5");
        reveal_strlit("6");
        reveal_strlit("7");
        reveal_strlit("8");
        reveal_strlit("9");
        assert(r@ =~= seq![spec_digit_char(d as nat)]);
    }
    r
}

/// Render `n` in decimal.
pub fn u32_to_dec(n: u32) -> (r: String)
    ensures
        r@ == spec_dec(n as nat),
    decreases n,
{
    if n < 10 {
        String::from_str(digit_str(n))
    } else {
        let mut s = u32_to_dec(n / 10);
        s.append(digit_str(n % 10));
        assert(s@ =~= spec_dec((n / 10) as nat).push(spec_digit_char((n % 10) as nat)));
        s
    }
}

/// The characters of `s`, as a vector.
pub fn chars_of(s: &str) -> (r: Vec<char>)
    ensures
        r@ == s@,
{
    let n = s.unicode_len();
    let mut v: Vec<char> = Vec::new();
    let mut i: usize = 0;
    while i < n
        invariant
            n == s@.len(),
            0 <= i <= n,
            v@ =~= s@.take(i as int),
        decreases n - i,
    {
        v.push(s.get_char(i));
        i = i + 1;
    }
    assert(v@ =~= s@);
    v
}

/// The position of the first non-digit character of `s` at or after `i`
/// (or the length of `s` if digits run to the end).
pub open spec fn spec_digit_end(s: Seq<char>, i: int) -> int
    recommends
        0 <= i <= s.len(),
    decreases s.len() - i,
{
    if i < 0 || i >= s.len() {
        i
    } else if !spec_is_digit(s[i]) {
        i
    } else {
        spec_digit_end(s, i + 1)
    }
}

/// The end of a digit run never lies before its start, never beyond the
/// sequence, everything inside the run is a digit, and the run stops only
/// at the end of the sequence or at a non-digit.
pub proof fn lemma_digit_end_bounds(s: Seq<char>, i: int)
    requires
        0 <= i <= s.len(),
    ensures
        i <= spec_digit_end(s, i) <= s.len(),
        forall|k: int| i <= k < spec_digit_end(s, i) ==> spec_is_digit(#[trigger] s[k]),
        spec_digit_end(s, i) < s.len() ==> !spec_is_digit(s[spec_digit_end(s, i)]),
    decreases s.len() - i,
{
    if i < s.len() && spec_is_digit(s[i]) {
        lemma_digit_end_bounds(s, i + 1);
    }
}

/// Whether `c` is an ASCII decimal digit.
pub fn is_digit(c: char) -> (b: bool)
    ensures
        b == spec_is_digit(c),
{
    let v = c as u32;
    48 <= v && v <= 57
}

/// Find the end of the digit run starting at `i`.
pub fn digit_run_end(v: &Vec<char>, i: usize) -> (j: usize)
    requires
        i <= v@.len(),
    ensures
        j == spec_digit_end(v@, i as int),
        i <= j <= v@.len(),
{
    let mut j = i;
    while j < v.len() && is_digit(v[j])
        invariant
            i <= j <= v@.len(),
            spec_digit_end(v@, i as int) == spec_digit_end(v@, j as int),
        decreases v@.len() - j,
    {
        proof {
            assert(spec_digit_end(v@, j as int) == spec_digit_end(v@, j + 1));
        }
        j = j + 1;
    }
    j
}

/// The value of the digit run `s[i..j]`, capped: any value above 65535 is
/// reported as 65536.
pub fn run_value(v: &Vec<char>, i: usize, j: usize) -> (r: u32)
    requires
        i <= j <= v@.len(),
        forall|k: int| i <= k < j ==> spec_is_digit(#[trigger] v@[k]),
    ensures
        r <= 65535 ==> r == spec_digits_to_nat(v@.subrange(i as int, j as int)),
        r > 65535 ==> spec_digits_to_nat(v@.subrange(i as int, j as int)) > 65535,
        r <= 655359,
{
    let ghost s = v@.subrange(i as int, j as int);
    let mut acc: u32 = 0;
    let mut k = i;
    assert(s.take(0) =~= Seq::<char>::empty());
    while k < j
        invariant
            i <= k <= j <= v@.len(),
            s == v@.subrange(i as int, j as int),
            forall|m: int| i <= m < j ==> spec_is_digit(#[trigger] v@[m]),
            acc <= 65535 ==> acc == spec_digits_to_nat(s.take(k - i)),
            acc > 65535 ==> spec_digits_to_nat(s.take(k - i)) > 65535,
            acc <= 655359,
        decreases j - k,
    {
        let c = v[k] as u32;
        let d = c - 48;
        proof {
            assert(s.take(k - i + 1).drop_last() =~= s.take(k - i));
            assert(s.take(k - i + 1).last() == v@[k as int]);
            assert(spec_digits_to_nat(s.take(k - i + 1)) == spec_digits_to_nat(s.take(k - i))
                * 10 + spec_digit_val(v@[k as int]));
        }
        if acc <= 65535 {
            acc = acc * 10 + d;
        }
        k = k + 1;
    }
    assert(s.take(j - i) =~= s);
    acc
}

/// The value denoted by `s`, if `s` is a non-empty run of decimal digits
/// whose value fits in a `u16`.
pub open spec fn spec_parse_u16(s: Seq<char>) -> Option<u16> {
    if s.len() == 0 || !spec_all_digits(s) || spec_digits_to_nat(s) > 65535 {
        None
    } else {
        Some(spec_digits_to_nat(s) as u16)
    }
}

/// Parse `s` as a decimal `u16`. Accepts exactly the non-empty all-digit
/// strings whose value fits.
pub fn parse_u16(s: &str) -> (r: Option<u16>)
    ensures
        r == spec_parse_u16(s@),
{
    let v = chars_of(s);
    if v.len() == 0 {
        return None;
    }
    let end = digit_run_end(&v, 0);
    proof {
        lemma_digit_end_bounds(v@, 0);
    }
    if end != v.len() {
        assert(!spec_all_digits(s@)) by {
            assert(!spec_is_digit(v@[end as int]));
        }
        return None;
    }
    let val = run_value(&v, 0, end);
    assert(v@.subrange(0, end as int) =~= v@);
    if val > 65535 {
        return None;
    }
    Some(val as u16)
}

} // verus!
