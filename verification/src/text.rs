//! Numbers as text, for addresses, register values and exit statuses.

use vstd::prelude::*;
use vstd::string::StringExecFns;

verus! {

/// The character of the digit `digit`, of a base up to 16, with the letters
/// in upper case where `upper` is set.
pub open spec fn digit_char(digit: nat, upper: bool) -> char {
    if digit < 10 {
        ('0' as u8 + digit) as char
    } else if upper {
        ('A' as u8 + digit - 10) as char
    } else {
        ('a' as u8 + digit - 10) as char
    }
}

/// The hexadecimal digits of `value`, most significant first, without
/// leading zeros; `0` has the one digit `0`.
pub open spec fn hex_digits(value: nat, upper: bool) -> Seq<char>
    decreases value,
{
    if value < 16 {
        seq![digit_char(value, upper)]
    } else {
        hex_digits(value / 16, upper).push(digit_char(value % 16, upper))
    }
}

/// `value` in decimal, without leading zeros.
pub open spec fn decimal_text(value: nat) -> Seq<char>
    decreases value,
{
    if value < 10 {
        seq![digit_char(value, false)]
    } else {
        decimal_text(value / 10).push(digit_char(value % 10, false))
    }
}

/// `0x` and the hexadecimal digits of `value`.
pub open spec fn hex_text(value: nat, upper: bool) -> Seq<char> {
    seq!['0', 'x'] + hex_digits(value, upper)
}

/// The one-character text of a digit.
fn digit_text(digit: usize, upper: bool) -> (text: &'static str)
    requires
        digit < 16,
    ensures
        text@ == seq![digit_char(digit as nat, upper)],
{
    proof {
        reveal_strlit("0");
        reveal_strlit("1");
        reveal_strlit("2");
        reveal_strlit("3");
        reveal_strlit("4");
        reveal_strlit("5");
        reveal_strlit("6");
        reveal_strlit("7");
        reveal_strlit("8");
        reveal_strlit("9");
        reveal_strlit("A");
        reveal_strlit("B");
        reveal_strlit("C");
        reveal_strlit("D");
        reveal_strlit("E");
        reveal_strlit("F");
        reveal_strlit("a");
        reveal_strlit("b");
        reveal_strlit("c");
        reveal_strlit("d");
        reveal_strlit("e");
        reveal_strlit("f");
    }
    let text = match digit {
        0 => "0",
        1 => "1",
        2 => "2",
        3 => "3",
        4 => "4",
        5 => "5",
        6 => "6",
        7 => "7",
        8 => "8",
        9 => "9",
        10 => if upper { "A" } else { "a" },
        11 => if upper { "B" } else { "b" },
        12 => if upper { "C" } else { "c" },
        13 => if upper { "D" } else { "d" },
        14 => if upper { "E" } else { "e" },
        _ => if upper { "F" } else { "f" },
    };
    assert(text@ =~= seq![digit_char(digit as nat, upper)]);
    text
}

/// Appends the hexadecimal digits of `value` to `text`.
fn push_hex_digits(text: &mut String, value: usize, upper: bool)
    ensures
        final(text)@ == old(text)@ + hex_digits(value as nat, upper),
    decreases value,
{
    if value >= 16 {
        push_hex_digits(text, value / 16, upper);
    }
    text.append(digit_text(value % 16, upper));
    assert(final(text)@ =~= old(text)@ + hex_digits(value as nat, upper));
}

/// Appends `value` in decimal to `text`.
pub fn push_decimal(text: &mut String, value: usize)
    ensures
        final(text)@ == old(text)@ + decimal_text(value as nat),
    decreases value,
{
    if value >= 10 {
        push_decimal(text, value / 10);
    }
    text.append(digit_text(value % 10, false));
    assert(final(text)@ =~= old(text)@ + decimal_text(value as nat));
}

/// Appends `0x` and the hexadecimal digits of `value` to `text`.
pub fn push_hex(text: &mut String, value: usize, upper: bool)
    ensures
        final(text)@ == old(text)@ + hex_text(value as nat, upper),
{
    proof {
        reveal_strlit("0x");
    }
    text.append("0x");
    push_hex_digits(text, value, upper);
    assert(final(text)@ =~= old(text)@ + hex_text(value as nat, upper));
}

} // verus!
