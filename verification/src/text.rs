//! Rendering of numbers as text: decimal digits and amounts of money.

use vstd::prelude::*;

verus! {

/// The character that stands for the decimal digit `d`.
pub open spec fn digit_char(d: nat) -> char {
    if d == 0 {
        '0'
    } else if d == 1 {
        '1'
    } else if d == 2 {
        '2'
    } else if d == 3 {
        '3'
    } else if d == 4 {
        '4'
    } else if d == 5 {
        '5'
    } else if d == 6 {
        '6'
    } else if d == 7 {
        '7'
    } else if d == 8 {
        '8'
    } else {
        '9'
    }
}

/// The decimal notation of `n`, most significant digit first, without
/// leading zeros (`0` itself is written "0").
pub open spec fn decimal_digits(n: nat) -> Seq<char>
    decreases n,
{
    if n < 10 {
        seq![digit_char(n)]
    } else {
        decimal_digits(n / 10).push(digit_char(n % 10))
    }
}

/// The one-character text of a decimal digit.
fn digit_text(d: u8) -> (text: &'static str)
    requires
        d < 10,
    ensures
        text@ == seq![digit_char(d as nat)],
{
    proof {
        reveal_strlit("0");
        reveal_strlit("1");
        reveal_strlit("2");
        reveal_strlit("3");
        reveal_strlit("4");
        reveal_strlit("5");
        reveal_strlit("6");
        reveal_strlit("7");
        reveal_strlit("8");
        reveal_strlit("9");
    }
    let text = if d == 0 {
        "0"
    } else if d == 1 {
        "1"
    } else if d == 2 {
        "2"
    } else if d == 3 {
        "3"
    } else if d == 4 {
        "4"
    } else if d == 5 {
        "5"
    } else if d == 6 {
        "6"
    } else if d == 7 {
        "7"
    } else if d == 8 {
        "8"
    } else {
        "9"
    };
    text
}

/// Writes `n` in decimal notation.
pub fn decimal_text(n: u128) -> (text: String)
    ensures
        text@ == decimal_digits(n as nat),
{
    let mut text = String::from_str(digit_text((n % 10) as u8));
    let mut rest: u128 = n / 10;
    while rest > 0
        invariant
            rest > 0 ==> decimal_digits(n as nat) == decimal_digits(rest as nat) + text@,
            rest == 0 ==> text@ == decimal_digits(n as nat),
        decreases rest,
    {
        let digit = digit_text((rest % 10) as u8);
        text = String::from_str(digit).concat(text.as_str());
        rest = rest / 10;
    }
    text
}

/// The size of an amount, whichever its sign.
pub open spec fn magnitude(amount: int) -> nat {
    if amount < 0 {
        (-amount) as nat
    } else {
        amount as nat
    }
}

/// An amount of money, held in hundredths of the currency unit, written with
/// two decimal places: a minus sign if it is negative, the whole units, a
/// point, and the two digits of the hundredths.
pub open spec fn amount_digits(amount: int) -> Seq<char> {
    let size = magnitude(amount);
    let sign = if amount < 0 {
        seq!['-']
    } else {
        Seq::<char>::empty()
    };
    sign + decimal_digits(size / 100) + seq!['.', digit_char(size % 100 / 10), digit_char(size % 10)]
}

/// The size of `amount` as an unsigned number.
pub fn amount_magnitude(amount: i128) -> (size: u128)
    ensures
        size == magnitude(amount as int),
{
    if amount >= 0 {
        amount as u128
    } else {
        (-(amount + 1)) as u128 + 1
    }
}

/// An amount of money as reports show it: its digits, then the currency.
pub open spec fn amount_label(amount: int) -> Seq<char> {
    amount_digits(amount) + " TL"@
}

/// Writes an amount of money, held in hundredths, with two decimal places.
pub fn amount_number(amount: i128) -> (text: String)
    ensures
        text@ == amount_digits(amount as int),
{
    proof {
        reveal_strlit("-");
        reveal_strlit("");
        reveal_strlit(".");
    }
    let size = amount_magnitude(amount);
    let sign = if amount < 0 {
        "-"
    } else {
        ""
    };
    let mut text = String::from_str(sign);
    text.append(decimal_text(size / 100).as_str());
    text.append(".");
    text.append(digit_text((size % 100 / 10) as u8));
    text.append(digit_text((size % 10) as u8));
    text
}

/// Writes an amount of money as reports show it: with two decimal places
/// and the currency behind it.
pub fn amount_text(amount: i128) -> (text: String)
    ensures
        text@ == amount_label(amount as int),
{
    let mut text = amount_number(amount);
    text.append(" TL");
    text
}

} // verus!
