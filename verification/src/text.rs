//! Small helpers for building text.
use vstd::prelude::*;
use vstd::string::{StrSliceExecFns, StringExecFns};

verus! {

/// The character that stands for the digit `d`, in lower case beyond 9.
pub open spec fn digit_char(d: int) -> char {
    if d == 0 { '0' } else if d == 1 { '1' } else if d == 2 { '2' } else if d == 3 { '3' }
    else if d == 4 { '4' } else if d == 5 { '5' } else if d == 6 { '6' } else if d == 7 { '7' }
    else if d == 8 { '8' } else if d == 9 { '9' } else if d == 10 { 'a' } else if d == 11 { 'b' }
    else if d == 12 { 'c' } else if d == 13 { 'd' } else if d == 14 { 'e' } else { 'f' }
}

/// The decimal digits of `n`, most significant first, without leading zeros.
pub open spec fn decimal_digits(n: nat) -> Seq<char>
    decreases n,
{
    if n < 10 {
        seq![digit_char(n as int)]
    } else {
        decimal_digits(n / 10).push(digit_char((n % 10) as int))
    }
}

/// The two hexadecimal digits of a byte, high nibble first.
pub open spec fn hex_byte(n: u8) -> Seq<char> {
    seq![digit_char(n as int / 16), digit_char(n as int % 16)]
}

/// One digit, below 16, as text.
pub fn digit_text(d: u8) -> (s: &'static str)
    requires
        d < 16,
    ensures
        s@ == seq![digit_char(d as int)],
{
    proof {
        reveal_strlit("0");
        reveal_strlit("1");
        reveal_strlit("2");
        reveal_strlit("3");
        reveal_strlit("4");
        reveal_strlit("5");
        reveal_strlit("6");
        reveal_strlit("7");
        reveal_strlit("8");
        reveal_strlit("9");
        reveal_strlit("a");
        reveal_strlit("b");
        reveal_strlit("c");
        reveal_strlit("d");
        reveal_strlit("e");
        reveal_strlit("f");
    }
    let s: &'static str = match d {
        0 => "0",
        1 => "1",
        2 => "2",
        3 => "3",
        4 => "4",
        5 => "5",
        6 => "6",
        7 => "7",
        8 => "8",
        9 => "9",
        10 => "a",
        11 => "b",
        12 => "c",
        13 => "d",
        14 => "e",
        _ => "f",
    };
    s
}

/// Appends the decimal form of `n` to `out`.
pub fn push_decimal(out: &mut String, n: u8)
    ensures
        final(out)@ == old(out)@ + decimal_digits(n as nat),
{
    if n >= 100 {
        out.append(digit_text(n / 100));
        out.append(digit_text((n / 10) % 10));
        out.append(digit_text(n % 10));
        proof {
            reveal_with_fuel(decimal_digits, 3);
        }
    } else if n >= 10 {
        out.append(digit_text(n / 10));
        out.append(digit_text(n % 10));
        proof {
            reveal_with_fuel(decimal_digits, 2);
        }
    } else {
        out.append(digit_text(n));
    }
}

/// Appends the two hexadecimal digits of `n` to `out`.
pub fn push_hex_byte(out: &mut String, n: u8)
    ensures
        final(out)@ == old(out)@ + hex_byte(n),
{
    out.append(digit_text(n / 16));
    out.append(digit_text(n % 16));
}

/// Whether two pieces of text are the same.
pub fn same_text(a: &str, b: &str) -> (same: bool)
    ensures
        same == (a@ == b@),
{
    String::from_str(a) == String::from_str(b)
}

/// A copy of a piece of text that may be absent.
pub fn copy_text(text: &Option<String>) -> (copy: Option<String>)
    ensures
        copy.deep_view() == text.deep_view(),
{
    match text {
        Some(t) => Some(t.clone()),
        None => None,
    }
}

/// The characters of a piece of text.
pub fn chars_of(s: &str) -> (chars: Vec<char>)
    ensures
        chars@ == s@,
{
    let n = s.unicode_len();
    let mut chars: Vec<char> = Vec::new();
    let mut i: usize = 0;
    while i < n
        invariant
            n == s@.len(),
            i <= n,
            chars@ == s@.subrange(0, i as int),
        decreases n - i,
    {
        chars.push(s.get_char(i));
        i = i + 1;
    }
    chars
}

/// `needle` stands in `hay` at position `at`.
pub open spec fn occurs_at(needle: Seq<char>, hay: Seq<char>, at: int) -> bool {
    0 <= at && at + needle.len() <= hay.len() && hay.subrange(at, at + needle.len()) == needle
}

/// `needle` stands somewhere in `hay`.
pub open spec fn occurs_in(needle: Seq<char>, hay: Seq<char>) -> bool {
    exists|at: int| occurs_at(needle, hay, at)
}

fn matches_at(needle: &Vec<char>, hay: &Vec<char>, at: usize) -> (found: bool)
    requires
        at + needle@.len() <= hay@.len(),
    ensures
        found == occurs_at(needle@, hay@, at as int),
{
    let n = needle.len();
    let h = hay.len();
    let mut k: usize = 0;
    while k < n
        invariant
            n == needle@.len(),
            h == hay@.len(),
            at + n <= h,
            k <= n,
            forall|j: int| 0 <= j < k ==> hay@[at + j] == needle@[j],
        decreases n - k,
    {
        if hay[at + k] != needle[k] {
            return false;
        }
        k = k + 1;
    }
    assert(hay@.subrange(at as int, at + needle@.len()) =~= needle@);
    true
}

/// Whether `needle` stands somewhere in `hay`.
pub fn contains_text(hay: &str, needle: &str) -> (found: bool)
    ensures
        found == occurs_in(needle@, hay@),
{
    let text = chars_of(hay);
    let word = chars_of(needle);
    if word.len() > text.len() {
        return false;
    }
    let last: usize = text.len() - word.len();
    let mut at: usize = 0;
    loop
        invariant
            text@ == hay@,
            word@ == needle@,
            last == text@.len() - word@.len(),
            at <= last,
            forall|i: int| 0 <= i < at ==> !occurs_at(needle@, hay@, i),
        decreases last - at,
    {
        if matches_at(&word, &text, at) {
            return true;
        }
        if at == last {
            return false;
        }
        at = at + 1;
    }
}

/// The decimal digits of `n` as ASCII bytes, most significant first.
pub open spec fn decimal_bytes(n: nat) -> Seq<u8>
    decreases n,
{
    if n < 10 {
        seq![(48 + n) as u8]
    } else {
        decimal_bytes(n / 10).push((48 + n % 10) as u8)
    }
}

/// Appends the decimal form of `n`, in ASCII, to `out`.
pub fn push_decimal_bytes(out: &mut Vec<u8>, n: u16)
    ensures
        final(out)@ == old(out)@ + decimal_bytes(n as nat),
    decreases n,
{
    if n >= 10 {
        push_decimal_bytes(out, n / 10);
    }
    let digit: u8 = 48 + (n % 10) as u8;
    out.push(digit);
}

} // verus!
