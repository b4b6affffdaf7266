//! Decimal rendering of integers, used for request bodies and error messages.

use vstd::prelude::*;

verus! {

/// The character for a single decimal digit.
pub open spec fn spec_digit_char(d: nat) -> char {
    if d == 0 {
        '0'
    } else if d == 1 {
        '1'
    } else if d == 2 {
        '2'
    } else if d == 3 {
        '3'
    } else if d == 4 {
        '4'
    } else if d == 5 {
        '5'
    } else if d == 6 {
        '6'
    } else if d == 7 {
        '7'
    } else if d == 8 {
        '8'
    } else {
        '9'
    }
}

/// The decimal digit string of a natural number, most significant digit
/// first, with no leading zeros (a single `'0'` for zero).
pub open spec fn spec_udigits(n: nat) -> Seq<char>
    decreases n,
{
    if n < 10 {
        seq![spec_digit_char(n)]
    } else {
        spec_udigits(n / 10).push(spec_digit_char(n % 10))
    }
}

/// The decimal string of an integer: a leading `'-'` for negative values,
/// then the digits of its magnitude.
pub open spec fn spec_int_digits(n: int) -> Seq<char> {
    if n < 0 {
        seq!['-'] + spec_udigits((-n) as nat)
    } else {
        spec_udigits(n as nat)
    }
}

fn digit_str(d: u64) -> (r: &'static str)
    requires
        d < 10,
    ensures
        r@ == seq![spec_digit_char(d as nat)],
{
    if d == 0 {
        proof {
            reveal_strlit("0");
            assert("0"@ =~= seq![spec_digit_char(0)]);
        }
        "0"
    } else if d == 1 {
        proof {
            reveal_strlit("1");
            assert("1"@ =~= seq![spec_digit_char(1)]);
        }
        "1"
    } else if d == 2 {
        proof {
            reveal_strlit("2");
            assert("2"@ =~= seq![spec_digit_char(2)]);
        }
        "2"
    } else if d == 3 {
        proof {
            reveal_strlit("3");
            assert("3"@ =~= seq![spec_digit_char(3)]);
        }
        "3"
    } else if d == 4 {
        proof {
            reveal_strlit("4");
            assert("4"@ =~= seq![spec_digit_char(4)]);
        }
        "4"
    } else if d == 5 {
        proof {
            reveal_strlit("5");
            assert("5"@ =~= seq![spec_digit_char(5)]);
        }
        "5"
    } else if d == 6 {
        proof {
            reveal_strlit("6");
            assert("6"@ =~= seq![spec_digit_char(6)]);
        }
        "6"
    } else if d == 7 {
        proof {
            reveal_strlit("7");
            assert("7"@ =~= seq![spec_digit_char(7)]);
        }
        "7"
    } else if d == 8 {
        proof {
            reveal_strlit("8");
            assert("8"@ =~= seq![spec_digit_char(8)]);
        }
        "8"
    } else {
        proof {
            reveal_strlit("9");
            assert("9"@ =~= seq![spec_digit_char(9)]);
        }
        "9"
    }
}

/// Appends the decimal digits of `n` to `s`.
pub fn push_u64_decimal(s: &mut String, n: u64)
    ensures
        final(s)@ == old(s)@ + spec_udigits(n as nat),
    decreases n,
{
    if n < 10 {
        let ghost s0 = s@;
        s.append(digit_str(n));
        proof {
            assert(s@ =~= s0 + spec_udigits(n as nat));
        }
    } else {
        let ghost s0 = s@;
        push_u64_decimal(s, n / 10);
        s.append(digit_str(n % 10));
        proof {
            assert(s@ =~= s0 + spec_udigits(n as nat));
        }
    }
}

/// Appends the decimal rendering of `n` to `s`, with a leading minus sign
/// for negative values.
pub fn push_i32_decimal(s: &mut String, n: i32)
    ensures
        final(s)@ == old(s)@ + spec_int_digits(n as int),
{
    let ghost s0 = s@;
    if n < 0 {
        s.append("-");
        let m: u64 = (-(n as i64)) as u64;
        push_u64_decimal(s, m);
        proof {
            reveal_strlit("-");
            assert(m as nat == (-(n as int)) as nat);
            assert("-"@ =~= seq!['-']);
            assert(s@ =~= s0 + spec_int_digits(n as int));
        }
    } else {
        push_u64_decimal(s, n as u64);
        proof {
            assert(s@ =~= s0 + spec_int_digits(n as int));
        }
    }
}

} // verus!
