//! Decimal text of unsigned integers.

use vstd::prelude::*;
use vstd::string::*;
use crate::error::ApiError;

verus! {

/// The character that stands for a decimal digit.
pub open spec fn digit_char(d: nat) -> char
    recommends
        d < 10,
{
    if d == 0 {
        '0'
    } else if d == 1 {
        '1'
    } else if d == 2 {
        '2'
    } else if d == 3 {
        '3'
    } else if d == 4 {
        '4'
    } else if d == 5 {
        '5'
    } else if d == 6 {
        '6'
    } else if d == 7 {
        '7'
    } else if d == 8 {
        '8'
    } else {
        '9'
    }
}

/// The decimal text of a number: no sign, no leading zero but for zero itself.
pub open spec fn decimal_text(n: nat) -> Seq<char>
    decreases n,
{
    if n < 10 {
        seq![digit_char(n)]
    } else {
        decimal_text(n / 10).push(digit_char(n % 10))
    }
}

/// One decimal digit as text.
fn digit_str(d: u64) -> (text: &'static str)
    requires
        d < 10,
    ensures
        text@ == seq![digit_char(d as nat)],
{
    proof {
        reveal_strlit("0");
        reveal_strlit("1");
        reveal_strlit("2");
        reveal_strlit("3");
        reveal_strlit("4");
        reveal_strlit("5");
        reveal_strlit("6");
        reveal_strlit("7");
        reveal_strlit("8");
        reveal_strlit("9");
    }
    let text = if d == 0 {
        "0"
    } else if d == 1 {
        "1"
    } else if d == 2 {
        "2"
    } else if d == 3 {
        "3"
    } else if d == 4 {
        "4"
    } else if d == 5 {
        "5"
    } else if d == 6 {
        "6"
    } else if d == 7 {
        "7"
    } else if d == 8 {
        "8"
    } else {
        "9"
    };
    assert(text@ =~= seq![digit_char(d as nat)]);
    text
}

/// Writes a number in decimal.
pub fn u64_to_decimal(n: u64) -> (text: String)
    ensures
        text@ == decimal_text(n as nat),
    decreases n,
{
    if n < 10 {
        String::from_str(digit_str(n))
    } else {
        let mut text = u64_to_decimal(n / 10);
        text.append(digit_str(n % 10));
        assert(text@ =~= decimal_text(n as nat));
        text
    }
}

/// Whether a character is a decimal digit.
pub open spec fn is_digit(c: char) -> bool {
    '0' <= c <= '9'
}

/// The number that a decimal digit stands for.
pub open spec fn digit_value(c: char) -> nat
    recommends
        is_digit(c),
{
    (c as u32 - '0' as u32) as nat
}

/// The number that a run of decimal digits stands for; leading zeros count
/// for nothing.
pub open spec fn digits_value(digits: Seq<char>) -> nat
    decreases digits.len(),
{
    if digits.len() == 0 {
        0
    } else {
        10 * digits_value(digits.drop_last()) + digit_value(digits.last())
    }
}

/// Whether a text is one decimal digit or more, and nothing else.
pub open spec fn all_digits(digits: Seq<char>) -> bool {
    digits.len() > 0 && forall|i: int| 0 <= i < digits.len() ==> is_digit(#[trigger] digits[i])
}

/// A text without the plus sign that may stand in front of a number.
pub open spec fn without_sign(text: Seq<char>) -> Seq<char> {
    if text.len() > 0 && text[0] == '+' {
        text.skip(1)
    } else {
        text
    }
}

/// The number that a text stands for: decimal digits, after a plus sign or
/// without one, whose value a `u64` can hold.
pub open spec fn parsed_u64(text: Seq<char>) -> Option<u64> {
    let digits = without_sign(text);
    if all_digits(digits) && digits_value(digits) <= u64::MAX {
        Some(digits_value(digits) as u64)
    } else {
        None
    }
}

/// The first digits of a number stand for no more than all of them.
pub proof fn lemma_digits_value_grows(digits: Seq<char>, count: int)
    requires
        0 <= count <= digits.len(),
    ensures
        digits_value(digits.take(count)) <= digits_value(digits),
    decreases digits.len(),
{
    if count == digits.len() {
        assert(digits.take(count) =~= digits);
    } else {
        lemma_digits_value_grows(digits.drop_last(), count);
        assert(digits.drop_last().take(count) =~= digits.take(count));
    }
}

/// The decimal text of a number is made of digits and stands for that number.
pub proof fn lemma_decimal_text_value(n: nat)
    ensures
        all_digits(decimal_text(n)),
        digits_value(decimal_text(n)) == n,
    decreases n,
{
    let text = decimal_text(n);
    if n < 10 {
        assert(text.drop_last() =~= Seq::<char>::empty());
        assert(digits_value(text.drop_last()) == 0);
        assert(digit_value(digit_char(n)) == n);
    } else {
        lemma_decimal_text_value(n / 10);
        assert(text.drop_last() =~= decimal_text(n / 10));
        assert(digit_value(digit_char(n % 10)) == n % 10);
        assert forall|i: int| 0 <= i < text.len() implies is_digit(#[trigger] text[i]) by {
            if i < text.len() - 1 {
                assert(text[i] == decimal_text(n / 10)[i]);
            }
        }
    }
}

/// What is written in decimal is read back as the same number.
pub proof fn lemma_decimal_round_trip(n: u64)
    ensures
        parsed_u64(decimal_text(n as nat)) == Some(n),
{
    lemma_decimal_text_value(n as nat);
    assert(is_digit(decimal_text(n as nat)[0]));
}

/// Reads a number in decimal, as `u64::from_str_radix` with radix ten does.
pub fn u64_from_str(text: &str) -> (result: Result<u64, ApiError>)
    ensures
        match result {
            Ok(value) => parsed_u64(text@) == Some(value),
            Err(error) => error == ApiError::Parse && parsed_u64(text@) is None,
        },
{
    let ghost digits = without_sign(text@);
    let ghost signed: int = if text@.len() > 0 && text@[0] == '+' {
        1
    } else {
        0
    };
    let mut value: u64 = 0;
    let mut seen: bool = false;
    let mut first: bool = true;
    for c in iter: text.chars()
        invariant
            iter.seq() == text@,
            digits == without_sign(text@),
            signed == if text@.len() > 0 && text@[0] == '+' {
                1int
            } else {
                0int
            },
            first == (iter.index() == 0),
            seen == (iter.index() > signed),
            forall|i: int| 0 <= i < iter.index() - signed ==> is_digit(#[trigger] digits[i]),
            iter.index() >= signed ==> value == digits_value(digits.take(iter.index() - signed)),
            iter.index() < signed ==> value == 0,
    {
        let ghost at = iter.index() - signed;
        if first && c == '+' {
            first = false;
        } else {
            first = false;
            assert(digits[at] == c);
            if c < '0' || c > '9' {
                assert(!is_digit(digits[at]));
                return Err(ApiError::Parse);
            }
            let digit = (c as u32 - '0' as u32) as u64;
            proof {
                assert(digits.take(at + 1).drop_last() =~= digits.take(at));
                assert(digits.take(at + 1).last() == c);
                assert(digits_value(digits.take(at + 1)) == 10 * value + digit);
                lemma_digits_value_grows(digits, at + 1);
            }
            let scaled = match value.checked_mul(10) {
                Some(scaled) => scaled,
                None => {
                    return Err(ApiError::Parse);
                },
            };
            value = match scaled.checked_add(digit) {
                Some(sum) => sum,
                None => {
                    return Err(ApiError::Parse);
                },
            };
            seen = true;
        }
    }
    assert(digits.take(digits.len() as int) =~= digits);
    if seen {
        Ok(value)
    } else {
        Err(ApiError::Parse)
    }
}

} // verus!
