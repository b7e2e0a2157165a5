//! Writing numbers in decimal.

use vstd::prelude::*;

verus! {

/// The character that stands for a digit below ten.
pub open spec fn digit_char(digit: nat) -> char {
    if digit == 0 {
        '0'
    } else if digit == 1 {
        '1'
    } else if digit == 2 {
        '2'
    } else if digit == 3 {
        '3'
    } else if digit == 4 {
        '4'
    } else if digit == 5 {
        '5'
    } else if digit == 6 {
        '6'
    } else if digit == 7 {
        '7'
    } else if digit == 8 {
        '8'
    } else {
        '9'
    }
}

/// `value` in decimal, with no sign and no leading zero.
pub open spec fn decimal(value: nat) -> Seq<char>
    decreases value,
{
    if value < 10 {
        seq![digit_char(value)]
    } else {
        decimal(value / 10).push(digit_char(value % 10))
    }
}

/// `count` zeros.
pub open spec fn zeros(count: nat) -> Seq<char> {
    Seq::new(count, |i: int| '0')
}

/// `value` in decimal, filled up with zeros on the left to `width` characters;
/// as it is where it has that many or more.
pub open spec fn padded_decimal(value: nat, width: nat) -> Seq<char> {
    let digits = decimal(value);
    if digits.len() >= width {
        digits
    } else {
        zeros((width - digits.len()) as nat) + digits
    }
}

/// Ten to the power of `exponent`.
pub open spec fn power_of_ten(exponent: nat) -> nat
    decreases exponent,
{
    if exponent == 0 {
        1
    } else {
        10 * power_of_ten((exponent - 1) as nat)
    }
}

/// A number below ten to the power of `width` has at most `width` digits.
pub proof fn lemma_decimal_width(value: nat, width: nat)
    requires
        width >= 1,
        value < power_of_ten(width),
    ensures
        1 <= decimal(value).len() <= width,
    decreases width,
{
    if value >= 10 {
        if width == 1 {
            assert(power_of_ten(1) == 10) by {
                reveal_with_fuel(power_of_ten, 2);
            }
        }
        lemma_decimal_width(value / 10, (width - 1) as nat);
    }
}

/// Every 64-bit number has at most twenty digits.
pub proof fn lemma_decimal_width_u64(value: u64)
    ensures
        1 <= decimal(value as nat).len() <= 20,
{
    assert(power_of_ten(20) == 100_000_000_000_000_000_000) by {
        reveal_with_fuel(power_of_ten, 21);
    }
    lemma_decimal_width(value as nat, 20);
}

/// The text of a digit below ten.
fn digit_text(digit: u8) -> (text: &'static str)
    requires
        digit < 10,
    ensures
        text@ == seq![digit_char(digit as nat)],
{
    proof {
        reveal_strlit("0");
        reveal_strlit("1");
        reveal_strlit("2");
        reveal_strlit("3");
        reveal_strlit("4");
        reveal_strlit("5");
        reveal_strlit("6");
        reveal_strlit("7");
        reveal_strlit("8");
        reveal_strlit("9");
    }
    let text = if digit == 0 {
        "0"
    } else if digit == 1 {
        "1"
    } else if digit == 2 {
        "2"
    } else if digit == 3 {
        "3"
    } else if digit == 4 {
        "4"
    } else if digit == 5 {
        "5"
    } else if digit == 6 {
        "6"
    } else if digit == 7 {
        "7"
    } else if digit == 8 {
        "8"
    } else {
        "9"
    };
    assert(text@ =~= seq![digit_char(digit as nat)]);
    text
}

/// Writes `value` in decimal at the end of `text` and says how many digits
/// that took.
pub fn append_decimal(text: &mut String, value: u128) -> (width: usize)
    ensures
        final(text)@ == old(text)@ + decimal(value as nat),
        width == decimal(value as nat).len(),
        1 <= width <= 39,
    decreases value,
{
    let mut width: usize = 0;
    if value >= 10 {
        width = append_decimal(text, value / 10);
    }
    text.append(digit_text((value % 10) as u8));
    proof {
        assert(power_of_ten(39) == 1_000_000_000_000_000_000_000_000_000_000_000_000_000) by {
            reveal_with_fuel(power_of_ten, 40);
        }
        lemma_decimal_width(value as nat, 39);
        if value >= 10 {
            assert(final(text)@ =~= old(text)@ + decimal(value as nat));
        } else {
            assert(final(text)@ =~= old(text)@ + decimal(value as nat));
        }
    }
    width + 1
}

/// `value` in decimal.
pub fn to_decimal(value: u128) -> (text: String)
    ensures
        text@ == decimal(value as nat),
{
    let mut text = String::new();
    let _ = append_decimal(&mut text, value);
    assert(text@ =~= decimal(value as nat));
    text
}

/// `value` in decimal, filled up with zeros on the left to twenty characters,
/// which is as many as the largest 64-bit number takes.
pub fn to_padded_decimal(value: u64) -> (text: String)
    ensures
        text@ == padded_decimal(value as nat, 20),
        text@.len() == 20,
{
    let mut digits = String::new();
    let width = append_decimal(&mut digits, value as u128);
    proof {
        lemma_decimal_width_u64(value);
        assert(digits@ =~= decimal(value as nat));
    }
    let mut text = String::new();
    let mut filled: usize = width;
    while filled < 20
        invariant
            width <= filled <= 20,
            text@ == zeros((filled - width) as nat),
        decreases 20 - filled,
    {
        proof {
            reveal_strlit("0");
        }
        text.append("0");
        filled += 1;
        assert(text@ =~= zeros((filled - width) as nat));
    }
    text.append(digits.as_str());
    text
}

} // verus!
