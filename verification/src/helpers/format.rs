//! Rendering of numbers and assembly of messages as character sequences.
use vstd::prelude::*;

use crate::helpers::text::{chars_of, string_from_chars};

verus! {

/// The decimal digit for `d` (0..=9).
pub open spec fn digit_char(d: nat) -> char {
    if d == 0 { '0' } else if d == 1 { '1' } else if d == 2 { '2' } else if d == 3 { '3' } else if d
        == 4 { '4' } else if d == 5 { '5' } else if d == 6 { '6' } else if d == 7 { '7' } else if d
        == 8 { '8' } else { '9' }
}

/// The upper-case hexadecimal digit for `d` (0..=15).
pub open spec fn hex_digit_char(d: nat) -> char {
    if d < 10 { digit_char(d) } else if d == 10 { 'A' } else if d == 11 { 'B' } else if d == 12 {
        'C'
    } else if d == 13 { 'D' } else if d == 14 { 'E' } else { 'F' }
}

/// The lower-case hexadecimal digit for `d` (0..=15).
pub open spec fn hex_lower_digit_char(d: nat) -> char {
    if d < 10 { digit_char(d) } else if d == 10 { 'a' } else if d == 11 { 'b' } else if d == 12 {
        'c'
    } else if d == 13 { 'd' } else if d == 14 { 'e' } else { 'f' }
}

/// Each byte as two lower-case hexadecimal digits, in order.
pub open spec fn hex_lower_bytes(b: Seq<u8>) -> Seq<char>
    decreases b.len(),
{
    if b.len() == 0 {
        Seq::empty()
    } else {
        hex_lower_bytes(b.drop_last()) + seq![
            hex_lower_digit_char((b.last() / 16) as nat),
            hex_lower_digit_char((b.last() % 16) as nat),
        ]
    }
}

/// Each byte as two upper-case hexadecimal digits, in order.
pub open spec fn hex_upper_bytes(b: Seq<u8>) -> Seq<char>
    decreases b.len(),
{
    if b.len() == 0 {
        Seq::empty()
    } else {
        hex_upper_bytes(b.drop_last()) + seq![
            hex_digit_char((b.last() / 16) as nat),
            hex_digit_char((b.last() % 16) as nat),
        ]
    }
}

/// The decimal rendering of `n`, without leading zeros.
pub open spec fn decimal(n: nat) -> Seq<char>
    decreases n,
{
    if n < 10 {
        seq![digit_char(n)]
    } else {
        decimal(n / 10).push(digit_char(n % 10))
    }
}

/// The upper-case hexadecimal rendering of `n`, without leading zeros or prefix.
pub open spec fn hex_upper(n: nat) -> Seq<char>
    decreases n,
{
    if n < 16 {
        seq![hex_digit_char(n)]
    } else {
        hex_upper(n / 16).push(hex_digit_char(n % 16))
    }
}

/// The lower-case hexadecimal rendering of `n`, without leading zeros or prefix.
pub open spec fn hex_lower_num(n: nat) -> Seq<char>
    decreases n,
{
    if n < 16 {
        seq![hex_lower_digit_char(n)]
    } else {
        hex_lower_num(n / 16).push(hex_lower_digit_char(n % 16))
    }
}

fn digit(d: u64) -> (c: char)
    requires
        d < 10,
    ensures
        c == digit_char(d as nat),
{
    if d == 0 { '0' } else if d == 1 { '1' } else if d == 2 { '2' } else if d == 3 { '3' } else if d
        == 4 { '4' } else if d == 5 { '5' } else if d == 6 { '6' } else if d == 7 { '7' } else if d
        == 8 { '8' } else { '9' }
}

fn hex_digit(d: u64) -> (c: char)
    requires
        d < 16,
    ensures
        c == hex_digit_char(d as nat),
{
    if d < 10 { digit(d) } else if d == 10 { 'A' } else if d == 11 { 'B' } else if d == 12 {
        'C'
    } else if d == 13 { 'D' } else if d == 14 { 'E' } else { 'F' }
}

fn hex_lower_digit(d: u8) -> (c: char)
    requires
        d < 16,
    ensures
        c == hex_lower_digit_char(d as nat),
{
    if d < 10 { digit(d as u64) } else if d == 10 { 'a' } else if d == 11 { 'b' } else if d == 12 {
        'c'
    } else if d == 13 { 'd' } else if d == 14 { 'e' } else { 'f' }
}

/// Each byte of `bytes` as two lower-case hexadecimal digits.
pub fn hex_lower(bytes: &[u8]) -> (s: String)
    ensures
        s@ == hex_lower_bytes(bytes@),
{
    let mut out: Vec<char> = Vec::new();
    let n = bytes.len();
    let mut i: usize = 0;
    while i < n
        invariant
            n == bytes@.len(),
            i <= n,
            out@ == hex_lower_bytes(bytes@.take(i as int)),
        decreases n - i,
    {
        let b = bytes[i];
        out.push(hex_lower_digit(b / 16));
        out.push(hex_lower_digit(b % 16));
        proof {
            let t = bytes@.take(i + 1);
            assert(t.drop_last() =~= bytes@.take(i as int));
            assert(t.last() == b);
            assert(out@ =~= hex_lower_bytes(t));
        }
        i = i + 1;
    }
    assert(bytes@.take(n as int) =~= bytes@);
    string_from_chars(out.as_slice())
}

/// Each byte of `bytes` as two upper-case hexadecimal digits.
pub fn hex_upper_pairs(bytes: &[u8]) -> (s: String)
    ensures
        s@ == hex_upper_bytes(bytes@),
{
    let mut out: Vec<char> = Vec::new();
    let n = bytes.len();
    let mut i: usize = 0;
    while i < n
        invariant
            n == bytes@.len(),
            i <= n,
            out@ == hex_upper_bytes(bytes@.take(i as int)),
        decreases n - i,
    {
        let b = bytes[i];
        out.push(hex_digit((b / 16) as u64));
        out.push(hex_digit((b % 16) as u64));
        proof {
            let t = bytes@.take(i + 1);
            assert(t.drop_last() =~= bytes@.take(i as int));
            assert(t.last() == b);
            assert(out@ =~= hex_upper_bytes(t));
        }
        i = i + 1;
    }
    assert(bytes@.take(n as int) =~= bytes@);
    string_from_chars(out.as_slice())
}

/// Appends the decimal rendering of `n` to `out`.
pub fn push_decimal(out: &mut Vec<char>, n: u64)
    ensures
        final(out)@ == old(out)@ + decimal(n as nat),
    decreases n,
{
    if n < 10 {
        out.push(digit(n));
        assert(decimal(n as nat) == seq![digit_char(n as nat)]);
    } else {
        push_decimal(out, n / 10);
        out.push(digit(n % 10));
        assert(decimal(n as nat) == decimal((n / 10) as nat).push(digit_char((n % 10) as nat)));
    }
}

/// Appends the upper-case hexadecimal rendering of `n` to `out`.
pub fn push_hex_upper(out: &mut Vec<char>, n: u64)
    ensures
        final(out)@ == old(out)@ + hex_upper(n as nat),
    decreases n,
{
    if n < 16 {
        out.push(hex_digit(n));
        assert(hex_upper(n as nat) == seq![hex_digit_char(n as nat)]);
    } else {
        push_hex_upper(out, n / 16);
        out.push(hex_digit(n % 16));
        assert(hex_upper(n as nat) == hex_upper((n / 16) as nat).push(hex_digit_char((n % 16) as nat)));
    }
}

/// Appends the lower-case hexadecimal rendering of `n` to `out`.
pub fn push_hex_lower(out: &mut Vec<char>, n: u64)
    ensures
        final(out)@ == old(out)@ + hex_lower_num(n as nat),
    decreases n,
{
    if n < 16 {
        out.push(hex_lower_digit(n as u8));
        assert(hex_lower_num(n as nat) == seq![hex_lower_digit_char(n as nat)]);
    } else {
        push_hex_lower(out, n / 16);
        out.push(hex_lower_digit((n % 16) as u8));
        assert(hex_lower_num(n as nat) == hex_lower_num((n / 16) as nat).push(
            hex_lower_digit_char((n % 16) as nat),
        ));
    }
}

/// Appends the characters of `s` to `out`.
pub fn push_str(out: &mut Vec<char>, s: &str)
    ensures
        final(out)@ == old(out)@ + s@,
{
    let c = chars_of(s);
    let n = c.len();
    let mut i: usize = 0;
    let ghost start = out@;
    while i < n
        invariant
            n == c@.len(),
            c@ == s@,
            i <= n,
            out@ == start + c@.take(i as int),
        decreases n - i,
    {
        out.push(c[i]);
        assert(out@ =~= start + c@.take(i + 1));
        i = i + 1;
    }
    assert(c@.take(n as int) =~= c@);
}

/// A string holding the characters of `v`.
pub fn to_string(v: &Vec<char>) -> (s: String)
    ensures
        s@ == v@,
{
    string_from_chars(v.as_slice())
}

} // verus!
