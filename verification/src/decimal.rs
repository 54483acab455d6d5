//! Decimal rendering of page numbers: the digits of a `u32` in base ten,
//! most significant first, with no sign, padding or separators.

use vstd::prelude::*;

verus! {

/// The character for one decimal digit.
pub open spec fn digit_char(d: int) -> char
    recommends
        0 <= d < 10,
{
    if d == 0 {
        '0'
    } else if d == 1 {
        '1'
    } else if d == 2 {
        '2'
    } else if d == 3 {
        '3'
    } else if d == 4 {
        '4'
    } else if d == 5 {
        '5'
    } else if d == 6 {
        '6'
    } else if d == 7 {
        '7'
    } else if d == 8 {
        '8'
    } else {
        '9'
    }
}

/// The decimal rendering of a non-negative integer: its digits in base ten,
/// most significant first. Zero is rendered as the single digit `0`.
pub open spec fn decimal_chars(n: int) -> Seq<char>
    recommends
        n >= 0,
    decreases n,
{
    if n < 10 {
        seq![digit_char(n)]
    } else {
        decimal_chars(n / 10).push(digit_char(n % 10))
    }
}

/// The characters of a digit list read back to front: the list carries the
/// least significant digit first, the rendering wants it last.
spec fn chars_of_reversed(digits: Seq<u32>) -> Seq<char> {
    Seq::new(digits.len(), |j: int| digit_char(digits[digits.len() - 1 - j] as int))
}

/// The exec text of one digit.
fn digit_str(d: u32) -> (s: &'static str)
    requires
        d < 10,
    ensures
        s@ == seq![digit_char(d as int)],
{
    let s: &'static str = if d == 0 {
        "0"
    } else if d == 1 {
        "1"
    } else if d == 2 {
        "2"
    } else if d == 3 {
        "3"
    } else if d == 4 {
        "4"
    } else if d == 5 {
        "5"
    } else if d == 6 {
        "6"
    } else if d == 7 {
        "7"
    } else if d == 8 {
        "8"
    } else {
        "9"
    };
    proof {
        reveal_strlit("0");
        reveal_strlit("1");
        reveal_strlit("2");
        reveal_strlit("3");
        reveal_strlit("4");
        reveal_strlit("5");
        reveal_strlit("6");
        reveal_strlit("7");
        reveal_strlit("8");
        reveal_strlit("9");
        assert(s@ =~= seq![digit_char(d as int)]);
    }
    s
}

/// Renders a page number in decimal, exactly as `decimal_chars` describes.
pub fn u32_to_decimal(n: u32) -> (s: String)
    ensures
        s@ == decimal_chars(n as int),
{
    // Digits are gathered least significant first, then emitted in reverse.
    let mut digits: Vec<u32> = Vec::new();
    let mut m: u32 = n;
    while m >= 10
        invariant
            decimal_chars(n as int) =~= decimal_chars(m as int) + chars_of_reversed(digits@),
            forall|i: int| 0 <= i < digits@.len() ==> digits@[i] < 10,
        decreases m,
    {
        let d: u32 = m % 10;
        let ghost old_m = m;
        let ghost old_digits = digits@;
        digits.push(d);
        m = m / 10;
        proof {
            assert(chars_of_reversed(old_digits.push(d)) =~= seq![digit_char(d as int)]
                + chars_of_reversed(old_digits));
            assert(decimal_chars(old_m as int) == decimal_chars(old_m as int / 10).push(
                digit_char(old_m as int % 10),
            ));
            assert(decimal_chars(m as int).push(digit_char(d as int)) + chars_of_reversed(
                old_digits,
            ) =~= decimal_chars(m as int) + (seq![digit_char(d as int)] + chars_of_reversed(
                old_digits,
            )));
        }
    }
    let ghost digits_before_last = digits@;
    digits.push(m);
    proof {
        assert(decimal_chars(m as int) == seq![digit_char(m as int)]);
        assert(chars_of_reversed(digits_before_last.push(m)) =~= seq![digit_char(m as int)]
            + chars_of_reversed(digits_before_last));
        assert(decimal_chars(n as int) =~= chars_of_reversed(digits@));
    }
    let mut s = String::new();
    let mut i: usize = digits.len();
    while i > 0
        invariant
            i <= digits@.len(),
            forall|k: int| 0 <= k < digits@.len() ==> digits@[k] < 10,
            decimal_chars(n as int) == chars_of_reversed(digits@),
            s@ =~= chars_of_reversed(digits@).take(digits@.len() - i),
        decreases i,
    {
        i = i - 1;
        s.append(digit_str(digits[i]));
        proof {
            assert(s@ =~= chars_of_reversed(digits@).take(digits@.len() - i));
        }
    }
    proof {
        assert(s@ =~= decimal_chars(n as int));
    }
    s
}

} // verus!
