//! Canonical percentage text for a level: the fraction `num / diff` scaled to
//! a percentage, rounded to the nearest tenth of a percent (ties rounding
//! up), printed with exactly one digit after the decimal point and a trailing
//! `%`.

use vstd::prelude::*;
use vstd::string::StringExecFns;

verus! {

/// The character for a single decimal digit.
pub open spec fn digit_char(d: nat) -> char {
    if d == 0 {
        '0'
    } else if d == 1 {
        '1'
    } else if d == 2 {
        '2'
    } else if d == 3 {
        '3'
    } else if d == 4 {
        '4'
    } else if d == 5 {
        '5'
    } else if d == 6 {
        '6'
    } else if d == 7 {
        '7'
    } else if d == 8 {
        '8'
    } else {
        '9'
    }
}

/// Whether a character is a decimal digit.
pub open spec fn is_digit_char(c: char) -> bool {
    c == '0' || c == '1' || c == '2' || c == '3' || c == '4' || c == '5' || c == '6' || c == '7'
        || c == '8' || c == '9'
}

/// The decimal digits of `n`, most significant first, with no leading zeros
/// (a single `'0'` for `n == 0`).
pub open spec fn decimal_digits(n: nat) -> Seq<char>
    decreases n,
{
    if n < 10 {
        seq![digit_char(n)]
    } else {
        decimal_digits(n / 10).push(digit_char(n % 10))
    }
}

/// The fraction `num / diff` as tenths of a percent, rounded to the nearest
/// tenth with ties rounding up.
pub open spec fn percent_tenths(num: nat, diff: nat) -> nat
    recommends
        diff > 0,
{
    (num * 1000 + diff / 2) / diff
}

/// The percentage text for the fraction `num / diff`: the integer percent
/// digits, a decimal point, exactly one tenths digit, and `'%'`.
pub open spec fn percent_chars(num: nat, diff: nat) -> Seq<char>
    recommends
        diff > 0,
{
    let t = percent_tenths(num, diff);
    decimal_digits(t / 10) + seq!['.', digit_char(t % 10), '%']
}

fn digit_str(d: u8) -> (r: &'static str)
    requires
        d < 10,
    ensures
        r@ == seq![digit_char(d as nat)],
{
    if d == 0 {
        proof {
            reveal_strlit("0");
            assert("0"@ =~= seq![digit_char(0)]);
        }
        "0"
    } else if d == 1 {
        proof {
            reveal_strlit("1");
            assert("1"@ =~= seq![digit_char(1)]);
        }
        "1"
    } else if d == 2 {
        proof {
            reveal_strlit("2");
            assert("2"@ =~= seq![digit_char(2)]);
        }
        "2"
    } else if d == 3 {
        proof {
            reveal_strlit("3");
            assert("3"@ =~= seq![digit_char(3)]);
        }
        "3"
    } else if d == 4 {
        proof {
            reveal_strlit("4");
            assert("4"@ =~= seq![digit_char(4)]);
        }
        "4"
    } else if d == 5 {
        proof {
            reveal_strlit("5");
            assert("5"@ =~= seq![digit_char(5)]);
        }
        "5"
    } else if d == 6 {
        proof {
            reveal_strlit("6");
            assert("6"@ =~= seq![digit_char(6)]);
        }
        "6"
    } else if d == 7 {
        proof {
            reveal_strlit("7");
            assert("7"@ =~= seq![digit_char(7)]);
        }
        "7"
    } else if d == 8 {
        proof {
            reveal_strlit("8");
            assert("8"@ =~= seq![digit_char(8)]);
        }
        "8"
    } else {
        proof {
            reveal_strlit("9");
            assert("9"@ =~= seq![digit_char(9)]);
        }
        "9"
    }
}

fn push_decimal(s: &mut String, n: u32)
    ensures
        final(s)@ == old(s)@ + decimal_digits(n as nat),
    decreases n,
{
    if n >= 10 {
        push_decimal(s, n / 10);
        s.append(digit_str((n % 10) as u8));
        proof {
            assert(s@ =~= old(s)@ + decimal_digits(n as nat));
        }
    } else {
        s.append(digit_str(n as u8));
        proof {
            assert(s@ =~= old(s)@ + decimal_digits(n as nat));
        }
    }
}

/// Builds the percentage text for the fraction `num / diff`.
pub fn percent_string(num: u8, diff: u8) -> (r: String)
    requires
        0 < diff,
        num <= diff,
    ensures
        r@ == percent_chars(num as nat, diff as nat),
{
    let t: u32 = ((num as u32) * 1000 + (diff as u32) / 2) / (diff as u32);
    proof {
        assert(t == percent_tenths(num as nat, diff as nat));
    }
    let mut s = String::new();
    push_decimal(&mut s, t / 10);
    s.append(".");
    s.append(digit_str((t % 10) as u8));
    s.append("%");
    proof {
        reveal_strlit(".");
        reveal_strlit("%");
        assert(s@ =~= percent_chars(num as nat, diff as nat));
    }
    s
}

proof fn lemma_decimal_digits_are_digits(n: nat)
    ensures
        decimal_digits(n).len() >= 1,
        forall|i: int|
            0 <= i < decimal_digits(n).len() ==> is_digit_char(#[trigger] decimal_digits(n)[i]),
    decreases n,
{
    if n >= 10 {
        lemma_decimal_digits_are_digits(n / 10);
    }
}

/// Law: the percentage text always has exactly one digit after the decimal
/// point and ends in `'%'`: its last three characters are `'.'`, a digit and
/// `'%'`, and every character before the decimal point is a digit (so the
/// text holds no second decimal point).
pub proof fn lemma_percent_display_shape(num: nat, diff: nat)
    requires
        diff > 0,
    ensures
        ({
            let s = percent_chars(num, diff);
            &&& s.len() >= 4
            &&& s[s.len() - 1] == '%'
            &&& s[s.len() - 3] == '.'
            &&& is_digit_char(s[s.len() - 2])
            &&& forall|i: int| 0 <= i < s.len() - 3 ==> is_digit_char(#[trigger] s[i])
        }),
{
    lemma_decimal_digits_are_digits(percent_tenths(num, diff) / 10);
}

} // verus!
