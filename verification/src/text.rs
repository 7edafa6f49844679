//! Text that the library composes: decimal numbers and padded columns.

use vstd::prelude::*;

verus! {

/// `String::push` of the standard library: the string grows by the one
/// character at its end, and nothing else of it changes.
pub assume_specification[ String::push ](s: &mut String, ch: char)
    ensures
        final(s)@ == old(s)@.push(ch),
;

/// The character that writes the digit `d`.
pub open spec fn digit_char(d: int) -> char
    recommends
        0 <= d < 10,
{
    if d == 0 {
        '0'
    } else if d == 1 {
        '1'
    } else if d == 2 {
        '2'
    } else if d == 3 {
        '3'
    } else if d == 4 {
        '4'
    } else if d == 5 {
        '5'
    } else if d == 6 {
        '6'
    } else if d == 7 {
        '7'
    } else if d == 8 {
        '8'
    } else {
        '9'
    }
}

/// The digits of `n` in base ten, the most significant first, with no
/// leading zero but for zero itself.
pub open spec fn decimal_digits(n: nat) -> Seq<char>
    decreases n,
{
    if n < 10 {
        seq![digit_char(n as int)]
    } else {
        decimal_digits(n / 10).push(digit_char((n % 10) as int))
    }
}

/// The number `n` as it is written in base ten, a minus sign before a
/// negative one.
pub open spec fn decimal(n: int) -> Seq<char> {
    if n < 0 {
        seq!['-'] + decimal_digits((-n) as nat)
    } else {
        decimal_digits(n as nat)
    }
}

/// The number of bytes that `chars` takes when written as UTF-8.
pub open spec fn byte_len(chars: Seq<char>) -> nat {
    vstd::utf8::encode_utf8(chars).len()
}

/// `count` copies of `ch`.
pub open spec fn repeated(ch: char, count: nat) -> Seq<char> {
    Seq::new(count, |i: int| ch)
}

/// Whether `n` is below `10^k`.
pub open spec fn below_power_of_ten(n: nat, k: nat) -> bool
    decreases k,
{
    if k == 0 {
        n < 1
    } else {
        below_power_of_ten(n / 10, (k - 1) as nat)
    }
}

/// A number below `10^k` is written with at most `k` digits.
pub proof fn lemma_digits_len(n: nat, k: nat)
    requires
        k >= 1,
        below_power_of_ten(n, k),
    ensures
        1 <= decimal_digits(n).len() <= k,
    decreases k,
{
    if n >= 10 {
        if k == 1 {
            assert(below_power_of_ten(n / 10, 0));
            assert(false);
        } else {
            lemma_digits_len(n / 10, (k - 1) as nat);
        }
    }
}

/// A number of the `i32` range is written with at most eleven characters.
pub proof fn lemma_decimal_len(n: int)
    requires
        i32::MIN <= n <= i32::MAX,
    ensures
        1 <= decimal(n).len() <= 11,
{
    let m: nat = if n < 0 { (-n) as nat } else { n as nat };
    assert(below_power_of_ten(m, 10)) by {
        reveal_with_fuel(below_power_of_ten, 11);
    }
    lemma_digits_len(m, 10);
}

/// Digits are ASCII characters.
pub proof fn lemma_digits_ascii(n: nat)
    ensures
        vstd::utf8::is_ascii_chars(decimal_digits(n)),
    decreases n,
{
    if n >= 10 {
        lemma_digits_ascii(n / 10);
    }
}

/// A number is written in ASCII: each of its characters takes one byte.
pub proof fn lemma_decimal_ascii(n: int)
    ensures
        vstd::utf8::is_ascii_chars(decimal(n)),
        byte_len(decimal(n)) == decimal(n).len(),
{
    if n < 0 {
        lemma_digits_ascii((-n) as nat);
    } else {
        lemma_digits_ascii(n as nat);
    }
    vstd::utf8::is_ascii_chars_encode_utf8(decimal(n));
}

fn digit(d: u32) -> (c: char)
    requires
        d < 10,
    ensures
        c == digit_char(d as int),
{
    match d {
        0 => '0',
        1 => '1',
        2 => '2',
        3 => '3',
        4 => '4',
        5 => '5',
        6 => '6',
        7 => '7',
        8 => '8',
        _ => '9',
    }
}

/// Writes the digits of `n` at the end of `text`.
pub fn push_digits(text: &mut String, n: u64)
    ensures
        final(text)@ == old(text)@ + decimal_digits(n as nat),
    decreases n,
{
    if n >= 10 {
        push_digits(text, n / 10);
    }
    text.push(digit((n % 10) as u32));
}

/// Writes `n` in base ten at the end of `text`.
pub fn push_decimal(text: &mut String, n: i64)
    ensures
        final(text)@ == old(text)@ + decimal(n as int),
{
    if n < 0 {
        text.push('-');
        let magnitude: i128 = -(n as i128);
        push_digits(text, magnitude as u64);
    } else {
        push_digits(text, n as u64);
    }
}

/// The number `n` written in base ten.
pub fn decimal_string(n: i32) -> (text: String)
    ensures
        text@ == decimal(n as int),
{
    let mut text = String::new();
    push_decimal(&mut text, n as i64);
    text
}

/// `string` followed by as many copies of `whitespace_ch` as bring it to
/// `len` bytes, counting each copy as one.
pub fn pad_right(string: String, len: usize, whitespace_ch: char) -> (padded: String)
    requires
        byte_len(string@) <= len,
    ensures
        padded@ == string@ + repeated(whitespace_ch, (len - byte_len(string@)) as nat),
{
    let mut padded = String::new();
    padded.append(string.as_str());
    let missing: usize = len - string.as_str().len();
    let mut i: usize = 0;
    while i < missing
        invariant
            i <= missing,
            missing == len - byte_len(string@),
            padded@ == string@ + repeated(whitespace_ch, i as nat),
        decreases missing - i,
    {
        padded.push(whitespace_ch);
        i = i + 1;
    }
    padded
}

} // verus!
