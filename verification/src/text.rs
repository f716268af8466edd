//! Building text one character at a time, and unsigned integers in decimal.

use vstd::prelude::*;

verus! {

/// Appends one character to a string.
///
/// Trusted: this is `String::push` of the standard library, which puts the
/// given character at the end of the string and leaves what was there as it
/// was.
#[verifier::external_body]
pub(crate) fn push_char(text: &mut String, c: char)
    ensures
        final(text)@ == old(text)@.push(c),
{
    text.push(c)
}

/// Appends characters to a string, in their order.
pub fn push_chars(text: &mut String, chars: &Vec<char>)
    ensures
        final(text)@ == old(text)@ + chars@,
{
    let mut next: usize = 0;
    while next < chars.len()
        invariant
            next <= chars@.len(),
            text@ == old(text)@ + chars@.subrange(0, next as int),
        decreases chars@.len() - next,
    {
        push_char(text, chars[next]);
        next += 1;
    }
    assert(chars@.subrange(0, chars@.len() as int) == chars@);
}

/// The character of a decimal digit.
pub open spec fn digit_char(digit: nat) -> char
    recommends
        digit <= 9,
{
    if digit == 0 {
        '0'
    } else if digit == 1 {
        '1'
    } else if digit == 2 {
        '2'
    } else if digit == 3 {
        '3'
    } else if digit == 4 {
        '4'
    } else if digit == 5 {
        '5'
    } else if digit == 6 {
        '6'
    } else if digit == 7 {
        '7'
    } else if digit == 8 {
        '8'
    } else {
        '9'
    }
}

/// A number in decimal: no sign, no grouping, no leading zero, and `0` for zero.
pub open spec fn decimal_text(value: nat) -> Seq<char>
    decreases value,
{
    if value < 10 {
        seq![digit_char(value)]
    } else {
        decimal_text(value / 10).push(digit_char(value % 10))
    }
}

/// The number that a run of decimal digits stands for, read from the left.
pub open spec fn decimal_value(digits: Seq<char>) -> nat
    decreases digits.len(),
{
    if digits.len() == 0 {
        0
    } else {
        10 * decimal_value(digits.drop_last()) + (digits.last() as nat - '0' as nat) as nat
    }
}

/// Whether a character is one of `0` to `9`.
pub open spec fn is_digit(c: char) -> bool {
    '0' <= c <= '9'
}

fn digit(value: u64) -> (c: char)
    requires
        value <= 9,
    ensures
        c == digit_char(value as nat),
{
    if value == 0 {
        '0'
    } else if value == 1 {
        '1'
    } else if value == 2 {
        '2'
    } else if value == 3 {
        '3'
    } else if value == 4 {
        '4'
    } else if value == 5 {
        '5'
    } else if value == 6 {
        '6'
    } else if value == 7 {
        '7'
    } else if value == 8 {
        '8'
    } else {
        '9'
    }
}

/// Appends a number in decimal to what the string holds.
pub fn push_decimal(text: &mut String, value: u64)
    ensures
        final(text)@ == old(text)@ + decimal_text(value as nat),
    decreases value,
{
    if value >= 10 {
        push_decimal(text, value / 10);
    }
    push_char(text, digit(value % 10));
}

/// A number in decimal.
pub fn render_decimal(value: u64) -> (text: String)
    ensures
        text@ == decimal_text(value as nat),
{
    let mut text = String::new();
    push_decimal(&mut text, value);
    text
}

/// Decimal text is made of digits only, has at least one of them, starts with
/// `0` only for zero itself, and reads back as the number it was made from.
pub proof fn decimal_text_reads_back(value: nat)
    ensures
        decimal_text(value).len() >= 1,
        forall|i: int| 0 <= i < decimal_text(value).len() ==> is_digit(#[trigger] decimal_text(value)[i]),
        decimal_text(value)[0] == '0' <==> value == 0,
        decimal_value(decimal_text(value)) == value,
    decreases value,
{
    if value < 10 {
        let text = decimal_text(value);
        assert(text.drop_last() =~= Seq::<char>::empty());
        assert(decimal_value(text.drop_last()) == 0);
    } else {
        decimal_text_reads_back(value / 10);
        let text = decimal_text(value);
        assert(text.drop_last() =~= decimal_text(value / 10));
        assert(text.last() == digit_char(value % 10));
    }
}

} // verus!
