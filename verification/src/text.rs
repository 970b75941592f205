//! Text: what strings hold, and numbers in decimal notation.

use vstd::prelude::*;
use vstd::string::*;

verus! {

/// The texts of a list of strings.
pub open spec fn texts(strings: Seq<String>) -> Seq<Seq<char>> {
    strings.map_values(|string: String| string@)
}

/// The character of a decimal digit.
pub open spec fn digit_char(digit: nat) -> char
    recommends
        digit < 10,
{
    seq!['0', '1', '2', '3', '4', '5', '6', '7', '8', '9'][digit as int]
}

/// The decimal notation of `n`, without leading zeros.
pub open spec fn decimal(n: nat) -> Seq<char>
    decreases n,
{
    if n < 10 {
        seq![digit_char(n)]
    } else {
        decimal(n / 10).push(digit_char(n % 10))
    }
}

/// The last `width` decimal digits of `n`, with zeros in front where `n`
/// has fewer.
pub open spec fn fixed_digits(n: nat, width: nat) -> Seq<char>
    decreases width,
{
    if width == 0 {
        Seq::empty()
    } else {
        fixed_digits(n / 10, (width - 1) as nat).push(digit_char(n % 10))
    }
}

/// `hundredths` hundredths as a decimal number with two places.
pub open spec fn hundredths_text(hundredths: nat) -> Seq<char> {
    decimal(hundredths / 100) + seq!['.'] + fixed_digits(hundredths % 100, 2)
}

/// `millionths` millionths as a decimal number with six places.
pub open spec fn millionths_text(millionths: nat) -> Seq<char> {
    decimal(millionths / 1_000_000) + seq!['.'] + fixed_digits(millionths % 1_000_000, 6)
}

fn digit_text(digit: u128) -> (text: &'static str)
    requires
        digit < 10,
    ensures
        text@ == seq![digit_char(digit as nat)],
{
    proof {
        reveal_strlit("0");
        reveal_strlit("1");
        reveal_strlit("2");
        reveal_strlit("3");
        reveal_strlit("4");
        reveal_strlit("5");
        reveal_strlit("6");
        reveal_strlit("7");
        reveal_strlit("8");
        reveal_strlit("9");
    }
    let text: &'static str = if digit == 0 {
        "0"
    } else if digit == 1 {
        "1"
    } else if digit == 2 {
        "2"
    } else if digit == 3 {
        "3"
    } else if digit == 4 {
        "4"
    } else if digit == 5 {
        "5"
    } else if digit == 6 {
        "6"
    } else if digit == 7 {
        "7"
    } else if digit == 8 {
        "8"
    } else {
        "9"
    };
    assert(text@ =~= seq![digit_char(digit as nat)]);
    text
}

/// Writes `n` in decimal.
pub fn decimal_string(n: u128) -> (text: String)
    ensures
        text@ == decimal(n as nat),
    decreases n,
{
    if n < 10 {
        String::from_str(digit_text(n))
    } else {
        let mut text: String = decimal_string(n / 10);
        text.append(digit_text(n % 10));
        text
    }
}

/// Appends the last `width` decimal digits of `n` to `text`.
fn append_fixed_digits(text: &mut String, n: u128, width: usize)
    ensures
        final(text)@ == old(text)@ + fixed_digits(n as nat, width as nat),
    decreases width,
{
    if width > 0 {
        append_fixed_digits(text, n / 10, width - 1);
        text.append(digit_text(n % 10));
        assert(final(text)@ =~= old(text)@ + fixed_digits(n as nat, width as nat));
    } else {
        assert(text@ =~= old(text)@ + fixed_digits(n as nat, width as nat));
    }
}

/// Writes `hundredths` hundredths with two decimal places.
pub fn hundredths_string(hundredths: u128) -> (text: String)
    ensures
        text@ == hundredths_text(hundredths as nat),
{
    let mut text: String = decimal_string(hundredths / 100);
    text.append(".");
    proof {
        reveal_strlit(".");
    }
    append_fixed_digits(&mut text, hundredths % 100, 2);
    assert(text@ =~= hundredths_text(hundredths as nat));
    text
}

/// Writes `millionths` millionths with six decimal places.
pub fn millionths_string(millionths: u128) -> (text: String)
    ensures
        text@ == millionths_text(millionths as nat),
{
    let mut text: String = decimal_string(millionths / 1_000_000);
    text.append(".");
    proof {
        reveal_strlit(".");
    }
    append_fixed_digits(&mut text, millionths % 1_000_000, 6);
    assert(text@ =~= millionths_text(millionths as nat));
    text
}

} // verus!
