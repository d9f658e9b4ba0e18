//! Document identifiers and the text that names them.
//!
//! A document is identified by an `i64`. In a request path, and as the name of
//! the shared text inside a session, it is written in decimal: a minus sign
//! for a negative number, then the digits, without leading zeros.

use vstd::prelude::*;
use vstd::string::StringExecFns;

verus! {

/// The character of a decimal digit.
pub open spec fn digit_char(digit: int) -> char {
    if digit == 0 {
        '0'
    } else if digit == 1 {
        '1'
    } else if digit == 2 {
        '2'
    } else if digit == 3 {
        '3'
    } else if digit == 4 {
        '4'
    } else if digit == 5 {
        '5'
    } else if digit == 6 {
        '6'
    } else if digit == 7 {
        '7'
    } else if digit == 8 {
        '8'
    } else {
        '9'
    }
}

/// The decimal digits of a natural number, most significant first.
pub open spec fn decimal_digits(n: nat) -> Seq<char>
    decreases n,
{
    if n < 10 {
        seq![digit_char(n as int)]
    } else {
        decimal_digits(n / 10).push(digit_char((n % 10) as int))
    }
}

/// The text that names the document `doc_id`.
pub open spec fn key_text(doc_id: int) -> Seq<char> {
    if doc_id < 0 {
        seq!['-'] + decimal_digits((-doc_id) as nat)
    } else {
        decimal_digits(doc_id as nat)
    }
}

/// The digit that a character stands for; anything that is no digit counts
/// as nine.
pub open spec fn digit_value(c: char) -> nat {
    if c == '0' {
        0
    } else if c == '1' {
        1
    } else if c == '2' {
        2
    } else if c == '3' {
        3
    } else if c == '4' {
        4
    } else if c == '5' {
        5
    } else if c == '6' {
        6
    } else if c == '7' {
        7
    } else if c == '8' {
        8
    } else {
        9
    }
}

/// The number that a run of digits, most significant first, stands for.
pub open spec fn digits_value(digits: Seq<char>) -> nat
    decreases digits.len(),
{
    if digits.len() == 0 {
        0
    } else {
        digits_value(digits.drop_last()) * 10 + digit_value(digits.last())
    }
}

/// Reading the digits of a number gives the number back, and the digits
/// never begin with a minus sign.
pub proof fn lemma_digits_round_trip(n: nat)
    ensures
        digits_value(decimal_digits(n)) == n,
        decimal_digits(n).len() >= 1,
        decimal_digits(n)[0] != '-',
    decreases n,
{
    if n < 10 {
        assert(digits_value(decimal_digits(n).drop_last()) == 0);
    } else {
        lemma_digits_round_trip(n / 10);
        assert(decimal_digits(n).drop_last() =~= decimal_digits(n / 10));
    }
}

/// Two documents never share a name.
pub proof fn lemma_key_text_injective(a: int, b: int)
    requires
        key_text(a) == key_text(b),
    ensures
        a == b,
{
    let abs_a = (if a < 0 { -a } else { a }) as nat;
    let abs_b = (if b < 0 { -b } else { b }) as nat;
    lemma_digits_round_trip(abs_a);
    lemma_digits_round_trip(abs_b);
    if a < 0 {
        assert(key_text(a).skip(1) =~= decimal_digits(abs_a));
        assert(key_text(b).skip(1) =~= decimal_digits(abs_b));
    }
}

/// The text of one decimal digit.
fn digit_text(digit: u64) -> (text: &'static str)
    requires
        digit < 10,
    ensures
        text@ == seq![digit_char(digit as int)],
{
    proof {
        reveal_strlit("0");
        reveal_strlit("1");
        reveal_strlit("2");
        reveal_strlit("3");
        reveal_strlit("4");
        reveal_strlit("5");
        reveal_strlit("6");
        reveal_strlit("7");
        reveal_strlit("8");
        reveal_strlit("9");
    }
    if digit == 0 {
        "0"
    } else if digit == 1 {
        "1"
    } else if digit == 2 {
        "2"
    } else if digit == 3 {
        "3"
    } else if digit == 4 {
        "4"
    } else if digit == 5 {
        "5"
    } else if digit == 6 {
        "6"
    } else if digit == 7 {
        "7"
    } else if digit == 8 {
        "8"
    } else {
        "9"
    }
}

/// Appends the decimal digits of `n` to `text`.
fn push_decimal(text: &mut String, n: u64)
    ensures
        final(text)@ == old(text)@ + decimal_digits(n as nat),
    decreases n,
{
    if n >= 10 {
        push_decimal(text, n / 10);
    }
    text.append(digit_text(n % 10));
}

/// Writes a document identifier as the text that names it.
pub fn document_key(doc_id: i64) -> (key: String)
    ensures
        key@ == key_text(doc_id as int),
{
    let mut key = String::new();
    if doc_id < 0 {
        proof {
            reveal_strlit("-");
        }
        key.append("-");
        // -(doc_id + 1) fits where -doc_id may not
        let magnitude: u64 = (-(doc_id + 1)) as u64 + 1;
        push_decimal(&mut key, magnitude);
    } else {
        push_decimal(&mut key, doc_id as u64);
    }
    key
}

} // verus!
