//! Decimal text of integers, as it appears in diagnostics.

use vstd::prelude::*;

verus! {

/// The character that stands for the decimal digit `d`, for `0 <= d <= 9`.
pub open spec fn digit_char(d: int) -> char {
    seq!['0', '1', '2', '3', '4', '5', '6', '7', '8', '9'][d]
}

/// The numeral of a natural number: its decimal digits, the most significant
/// first, with no leading zero except for zero itself.
pub open spec fn numeral(n: nat) -> Seq<char>
    decreases n,
{
    if n < 10 {
        seq![digit_char(n as int)]
    } else {
        numeral(n / 10).push(digit_char((n % 10) as int))
    }
}

/// The decimal text of an integer: a minus sign before the numeral of the
/// magnitude if the integer is negative, the numeral alone otherwise.
pub open spec fn decimal(n: int) -> Seq<char> {
    if n < 0 {
        seq!['-'] + numeral((-n) as nat)
    } else {
        numeral(n as nat)
    }
}

/// The one-character text of a single digit.
fn digit_text(d: u32) -> (text: &'static str)
    requires
        d < 10,
    ensures
        text@ == seq![digit_char(d as int)],
{
    proof {
        reveal_strlit("0");
        reveal_strlit("1");
        reveal_strlit("2");
        reveal_strlit("3");
        reveal_strlit("4");
        reveal_strlit("5");
        reveal_strlit("6");
        reveal_strlit("7");
        reveal_strlit("8");
        reveal_strlit("9");
    }
    let text: &'static str = match d {
        0 => "0",
        1 => "1",
        2 => "2",
        3 => "3",
        4 => "4",
        5 => "5",
        6 => "6",
        7 => "7",
        8 => "8",
        _ => "9",
    };
    assert(text@ =~= seq![digit_char(d as int)]);
    text
}

/// Appends the numeral of `n` to `text`.
fn append_numeral(text: &mut String, n: u32)
    ensures
        final(text)@ == old(text)@ + numeral(n as nat),
    decreases n,
{
    if n >= 10 {
        append_numeral(text, n / 10);
    }
    text.append(digit_text(n % 10));
    assert(text@ =~= old(text)@ + numeral(n as nat));
}

/// Renders a 32-bit signed integer in decimal.
pub fn decimal_text(n: i32) -> (text: String)
    ensures
        text@ == decimal(n as int),
{
    let mut text: String = String::new();
    if n < 0 {
        proof {
            reveal_strlit("-");
        }
        text.append("-");
        assert(text@ =~= seq!['-']);
        let magnitude: u32 = (-(n as i64)) as u32;
        append_numeral(&mut text, magnitude);
    } else {
        append_numeral(&mut text, n as u32);
        assert(text@ =~= numeral(n as nat));
    }
    text
}

} // verus!
