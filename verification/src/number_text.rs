//! Decimal text of integers, and the abbreviated price labels shown on moon buttons.

use vstd::prelude::*;
use vstd::string::StringExecFns;

verus! {

/// The character that stands for a single decimal digit.
pub open spec fn digit_char(d: int) -> char {
    if d == 0 {
        '0'
    } else if d == 1 {
        '1'
    } else if d == 2 {
        '2'
    } else if d == 3 {
        '3'
    } else if d == 4 {
        '4'
    } else if d == 5 {
        '5'
    } else if d == 6 {
        '6'
    } else if d == 7 {
        '7'
    } else if d == 8 {
        '8'
    } else {
        '9'
    }
}

/// The decimal digits of a natural number, most significant first, without leading zeros.
pub open spec fn digits(n: nat) -> Seq<char>
    decreases n,
{
    if n < 10 {
        seq![digit_char(n as int)]
    } else {
        digits(n / 10).push(digit_char((n % 10) as int))
    }
}

/// The decimal text of an integer: a minus sign for negative numbers, then the digits of its
/// magnitude.
pub open spec fn decimal(n: int) -> Seq<char> {
    if n < 0 {
        seq!['-'] + digits((-n) as nat)
    } else {
        digits(n as nat)
    }
}

/// Whether a number can be shown as a price label: anything below ten, whole tens below a
/// hundred, whole hundreds below a thousand, and whole thousands up to 99000.
pub open spec fn displayable(num: int) -> bool {
    ||| num < 10
    ||| (10 <= num < 100 && num % 10 == 0)
    ||| (100 <= num < 1000 && num % 100 == 0)
    ||| (1000 <= num <= 99000 && num % 1000 == 0)
}

/// The price label of a displayable number. Whole thousands are abbreviated with `k` and whole
/// hundreds with `h`; every label of a number from ten upwards starts with a space.
pub open spec fn display_text(num: int) -> Seq<char> {
    if num >= 1000 {
        seq![' '] + decimal(num / 1000) + seq!['k']
    } else if num >= 100 {
        seq![' '] + decimal(num / 100) + seq!['h']
    } else if num >= 10 {
        seq![' '] + decimal(num)
    } else {
        decimal(num)
    }
}

fn digit_str(d: u64) -> (text: &'static str)
    requires
        d < 10,
    ensures
        text@ == seq![digit_char(d as int)],
{
    let text = if d == 0 {
        proof { reveal_strlit("0"); }
        "0"
    } else if d == 1 {
        proof { reveal_strlit("1"); }
        "1"
    } else if d == 2 {
        proof { reveal_strlit("2"); }
        "2"
    } else if d == 3 {
        proof { reveal_strlit("3"); }
        "3"
    } else if d == 4 {
        proof { reveal_strlit("4"); }
        "4"
    } else if d == 5 {
        proof { reveal_strlit("5"); }
        "5"
    } else if d == 6 {
        proof { reveal_strlit("6"); }
        "6"
    } else if d == 7 {
        proof { reveal_strlit("7"); }
        "7"
    } else if d == 8 {
        proof { reveal_strlit("8"); }
        "8"
    } else {
        proof { reveal_strlit("9"); }
        "9"
    };
    assert(text@ =~= seq![digit_char(d as int)]);
    text
}

fn append_digits(text: &mut String, n: u64)
    ensures
        final(text)@ == old(text)@ + digits(n as nat),
    decreases n,
{
    if n >= 10 {
        append_digits(text, n / 10);
    }
    text.append(digit_str(n % 10));
    assert(final(text)@ =~= old(text)@ + digits(n as nat));
}

/// Appends the decimal text of `n` to `text`.
pub fn append_decimal(text: &mut String, n: i32)
    ensures
        final(text)@ == old(text)@ + decimal(n as int),
{
    if n < 0 {
        proof { reveal_strlit("-"); }
        text.append("-");
        let wide: i64 = n as i64;
        append_digits(text, (-wide) as u64);
    } else {
        append_digits(text, n as u64);
    }
    assert(final(text)@ =~= old(text)@ + decimal(n as int));
}

/// The decimal text of `n`, as `n.to_string()` gives it.
pub fn i32_to_string(n: i32) -> (text: String)
    ensures
        text@ == decimal(n as int),
{
    let mut text = String::new();
    append_decimal(&mut text, n);
    assert(text@ =~= decimal(n as int));
    text
}

/// Tells whether `num` can be shown as a price label.
pub fn is_displayable(num: i32) -> (yes: bool)
    ensures
        yes == displayable(num as int),
{
    if num > 99000 {
        false
    } else if num >= 1000 {
        num % 1000 == 0
    } else if num >= 100 {
        num % 100 == 0
    } else if num >= 10 {
        num % 10 == 0
    } else {
        true
    }
}

/// The label of a price on a moon button, with `h` and `k` for whole hundreds and thousands.
pub fn i32_to_display_str(num: i32) -> (text: String)
    requires
        displayable(num as int),
    ensures
        text@ == display_text(num as int),
{
    if num >= 10 {
        proof { reveal_strlit(" "); }
        let mut text = String::from_str(" ");
        if num >= 1000 {
            proof { reveal_strlit("k"); }
            append_decimal(&mut text, num / 1000);
            text.append("k");
        } else if num >= 100 {
            proof { reveal_strlit("h"); }
            append_decimal(&mut text, num / 100);
            text.append("h");
        } else {
            append_decimal(&mut text, num);
        }
        assert(text@ =~= display_text(num as int));
        text
    } else {
        i32_to_string(num)
    }
}

} // verus!
