//! Decimal text of a number, for names that count pages.

use vstd::prelude::*;
use vstd::string::StringExecFns;

verus! {

/// The character of a decimal digit.
pub open spec fn digit_char(digit: nat) -> char {
    if digit == 0 {
        '0'
    } else if digit == 1 {
        '1'
    } else if digit == 2 {
        '2'
    } else if digit == 3 {
        '3'
    } else if digit == 4 {
        '4'
    } else if digit == 5 {
        '5'
    } else if digit == 6 {
        '6'
    } else if digit == 7 {
        '7'
    } else if digit == 8 {
        '8'
    } else {
        '9'
    }
}

/// A number written in decimal digits, without sign or leading zeros.
pub open spec fn decimal_text(number: nat) -> Seq<char>
    decreases number,
{
    if number < 10 {
        seq![digit_char(number)]
    } else {
        decimal_text(number / 10).push(digit_char(number % 10))
    }
}

fn digit_text(digit: u64) -> (text: &'static str)
    requires
        digit < 10,
    ensures
        text@ == seq![digit_char(digit as nat)],
{
    proof {
        reveal_strlit("0");
        reveal_strlit("1");
        reveal_strlit("2");
        reveal_strlit("3");
        reveal_strlit("4");
        reveal_strlit("5");
        reveal_strlit("6");
        reveal_strlit("7");
        reveal_strlit("8");
        reveal_strlit("9");
    }
    let text: &'static str = if digit == 0 {
        "0"
    } else if digit == 1 {
        "1"
    } else if digit == 2 {
        "2"
    } else if digit == 3 {
        "3"
    } else if digit == 4 {
        "4"
    } else if digit == 5 {
        "5"
    } else if digit == 6 {
        "6"
    } else if digit == 7 {
        "7"
    } else if digit == 8 {
        "8"
    } else {
        "9"
    };
    assert(text@ =~= seq![digit_char(digit as nat)]);
    text
}

/// Writes a number in decimal digits.
pub fn decimal(number: u64) -> (text: String)
    ensures
        text@ == decimal_text(number as nat),
{
    let mut rest: u64 = number / 10;
    let mut text: String = String::from_str(digit_text(number % 10));
    proof {
        if number >= 10 {
            assert(decimal_text(number as nat) =~= decimal_text(rest as nat) + text@);
        }
    }
    while rest > 0
        invariant
            rest > 0 ==> decimal_text(number as nat) == decimal_text(rest as nat) + text@,
            rest == 0 ==> decimal_text(number as nat) == text@,
        decreases rest,
    {
        let digit: u64 = rest % 10;
        let longer: String = String::from_str(digit_text(digit)).concat(text.as_str());
        proof {
            if rest >= 10 {
                assert(decimal_text(rest as nat) + text@ =~= decimal_text((rest / 10) as nat)
                    + longer@);
            } else {
                assert(decimal_text(rest as nat) + text@ =~= longer@);
            }
        }
        text = longer;
        rest = rest / 10;
    }
    text
}

} // verus!
