//! The text of the readout that shows the translation of the view.

use vstd::prelude::*;
use vstd::string::*;
use crate::geometry::{ints, Point};

verus! {

/// The character of the decimal digit `d`.
pub open spec fn digit_char(d: int) -> char {
    if d == 0 {
        '0'
    } else if d == 1 {
        '1'
    } else if d == 2 {
        '2'
    } else if d == 3 {
        '3'
    } else if d == 4 {
        '4'
    } else if d == 5 {
        '5'
    } else if d == 6 {
        '6'
    } else if d == 7 {
        '7'
    } else if d == 8 {
        '8'
    } else {
        '9'
    }
}

/// The decimal digits of `n`, without leading zeros.
pub open spec fn decimal(n: nat) -> Seq<char>
    decreases n,
{
    if n < 10 {
        seq![digit_char(n as int)]
    } else {
        decimal(n / 10).push(digit_char((n % 10) as int))
    }
}

/// The decimal text of `v`: a minus sign before the digits of a negative
/// number.
pub open spec fn signed_decimal(v: int) -> Seq<char> {
    if v < 0 {
        seq!['-'] + decimal((-v) as nat)
    } else {
        decimal(v as nat)
    }
}

/// The text of the readout for the translation `t`: its two coordinates,
/// with a comma and a space between them.
pub open spec fn readout_text(t: (int, int)) -> Seq<char> {
    signed_decimal(t.0) + seq![',', ' '] + signed_decimal(t.1)
}

/// The text of one decimal digit.
fn digit_str(d: u8) -> (text: &'static str)
    requires
        d < 10,
    ensures
        text@ == seq![digit_char(d as int)],
{
    proof {
        reveal_strlit("0");
        reveal_strlit("1");
        reveal_strlit("2");
        reveal_strlit("3");
        reveal_strlit("4");
        reveal_strlit("5");
        reveal_strlit("6");
        reveal_strlit("7");
        reveal_strlit("8");
        reveal_strlit("9");
    }
    let text = match d {
        0 => "0",
        1 => "1",
        2 => "2",
        3 => "3",
        4 => "4",
        5 => "5",
        6 => "6",
        7 => "7",
        8 => "8",
        _ => "9",
    };
    assert(text@ =~= seq![digit_char(d as int)]);
    text
}

/// Appends the decimal digits of `n` to `text`.
fn append_decimal(text: &mut String, n: u32)
    ensures
        final(text)@ == old(text)@ + decimal(n as nat),
    decreases n,
{
    if n >= 10 {
        append_decimal(text, n / 10);
    }
    text.append(digit_str((n % 10) as u8));
    assert(text@ =~= old(text)@ + decimal(n as nat));
}

/// Appends the decimal text of `v` to `text`.
fn append_signed(text: &mut String, v: i32)
    ensures
        final(text)@ == old(text)@ + signed_decimal(v as int),
{
    if v < 0 {
        proof {
            reveal_strlit("-");
        }
        text.append("-");
        append_decimal(text, (-(v as i64)) as u32);
    } else {
        append_decimal(text, v as u32);
    }
    assert(text@ =~= old(text)@ + signed_decimal(v as int));
}

/// The text of the readout for `translation`.
pub fn readout_label(translation: Point) -> (label: String)
    ensures
        label@ == readout_text(ints(translation)),
{
    let mut label = String::new();
    append_signed(&mut label, translation.0);
    proof {
        reveal_strlit(", ");
    }
    label.append(", ");
    append_signed(&mut label, translation.1);
    assert(label@ =~= readout_text(ints(translation)));
    label
}

} // verus!
