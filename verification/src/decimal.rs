//! Canonical base-10 text of signed integers, and the parser that reads it back.

use vstd::prelude::*;
use vstd::string::*;

verus! {

/// The character of one decimal digit.
pub open spec fn digit_char(d: nat) -> char {
    if d == 0 {
        '0'
    } else if d == 1 {
        '1'
    } else if d == 2 {
        '2'
    } else if d == 3 {
        '3'
    } else if d == 4 {
        '4'
    } else if d == 5 {
        '5'
    } else if d == 6 {
        '6'
    } else if d == 7 {
        '7'
    } else if d == 8 {
        '8'
    } else {
        '9'
    }
}

/// The value of a decimal digit character, if it is one.
pub open spec fn digit_value(c: char) -> Option<nat> {
    if c == '0' {
        Some(0)
    } else if c == '1' {
        Some(1)
    } else if c == '2' {
        Some(2)
    } else if c == '3' {
        Some(3)
    } else if c == '4' {
        Some(4)
    } else if c == '5' {
        Some(5)
    } else if c == '6' {
        Some(6)
    } else if c == '7' {
        Some(7)
    } else if c == '8' {
        Some(8)
    } else if c == '9' {
        Some(9)
    } else {
        None
    }
}

/// The digits of a natural number, most significant first, without leading
/// zeros; zero is the single digit `0`.
pub open spec fn nat_digits(n: nat) -> Seq<char>
    decreases n,
{
    if n < 10 {
        seq![digit_char(n)]
    } else {
        nat_digits(n / 10).push(digit_char(n % 10))
    }
}

/// The canonical decimal text of an integer: a minus sign for negative
/// values, then the digits of the magnitude.
pub open spec fn int_text(v: int) -> Seq<char> {
    if v < 0 {
        seq!['-'] + nat_digits((-v) as nat)
    } else {
        nat_digits(v as nat)
    }
}

/// The natural number that a non-empty string of decimal digits denotes.
pub open spec fn parse_nat(s: Seq<char>) -> Option<nat>
    decreases s.len(),
{
    if s.len() == 0 {
        None
    } else {
        match digit_value(s.last()) {
            None => None,
            Some(d) => if s.len() == 1 {
                Some(d)
            } else {
                match parse_nat(s.drop_last()) {
                    None => None,
                    Some(high) => Some(high * 10 + d),
                }
            },
        }
    }
}

/// The integer that an optional minus sign followed by decimal digits denotes.
pub open spec fn parse_int(s: Seq<char>) -> Option<int> {
    if s.len() > 0 && s[0] == '-' {
        match parse_nat(s.subrange(1, s.len() as int)) {
            None => None,
            Some(m) => Some(-(m as int)),
        }
    } else {
        match parse_nat(s) {
            None => None,
            Some(m) => Some(m as int),
        }
    }
}

/// The digits of a number form a non-empty string that starts with a digit
/// and parses back to the number.
pub proof fn lemma_nat_digits_parse(n: nat)
    ensures
        nat_digits(n).len() >= 1,
        digit_value(nat_digits(n)[0]) is Some,
        parse_nat(nat_digits(n)) == Some(n),
    decreases n,
{
    if n >= 10 {
        lemma_nat_digits_parse(n / 10);
        let high = nat_digits(n / 10);
        let all = high.push(digit_char(n % 10));
        assert(all.drop_last() =~= high);
        assert(all.last() == digit_char(n % 10));
        assert(all[0] == high[0]);
    }
}

/// Parsing the canonical text of any integer yields that integer.
pub proof fn lemma_int_text_round_trip(v: int)
    ensures
        parse_int(int_text(v)) == Some(v),
{
    if v < 0 {
        let m = (-v) as nat;
        lemma_nat_digits_parse(m);
        let t = int_text(v);
        assert(t[0] == '-');
        assert(t.subrange(1, t.len() as int) =~= nat_digits(m));
    } else {
        lemma_nat_digits_parse(v as nat);
    }
}

/// One decimal digit as a string slice.
fn digit_str(d: u64) -> (r: &'static str)
    requires
        d < 10,
    ensures
        r@ == seq![digit_char(d as nat)],
{
    proof {
        reveal_strlit("0");
        reveal_strlit("1");
        reveal_strlit("2");
        reveal_strlit("3");
        reveal_strlit("4");
        reveal_strlit("5");
        reveal_strlit("6");
        reveal_strlit("7");
        reveal_strlit("8");
        reveal_strlit("9");
    }
    let r = if d == 0 {
        "0"
    } else if d == 1 {
        "1"
    } else if d == 2 {
        "2"
    } else if d == 3 {
        "3"
    } else if d == 4 {
        "4"
    } else if d == 5 {
        "5"
    } else if d == 6 {
        "6"
    } else if d == 7 {
        "7"
    } else if d == 8 {
        "8"
    } else {
        "9"
    };
    assert(r@ =~= seq![digit_char(d as nat)]);
    r
}

/// Appends the digits of `n` to `text`.
fn push_nat_digits(text: &mut String, n: u64)
    ensures
        final(text)@ == old(text)@ + nat_digits(n as nat),
    decreases n,
{
    if n >= 10 {
        push_nat_digits(text, n / 10);
    }
    text.append(digit_str(n % 10));
    assert(text@ =~= old(text)@ + nat_digits(n as nat));
}

/// The canonical decimal text of a 64-bit signed integer.
pub fn i64_to_string(v: i64) -> (text: String)
    ensures
        text@ == int_text(v as int),
{
    let mut text = String::new();
    if v < 0 {
        proof {
            reveal_strlit("-");
        }
        text.append("-");
        let magnitude: u64 = (-(v as i128)) as u64;
        push_nat_digits(&mut text, magnitude);
        assert(text@ =~= int_text(v as int));
    } else {
        push_nat_digits(&mut text, v as u64);
        assert(text@ =~= int_text(v as int));
    }
    text
}

/// The canonical decimal text of a 32-bit signed integer.
pub fn i32_to_string(v: i32) -> (text: String)
    ensures
        text@ == int_text(v as int),
{
    i64_to_string(v as i64)
}

} // verus!
