//! Decimal text for the numeric values substituted into scenario blocks.

use vstd::prelude::*;

verus! {

/// The character for a single decimal digit.
pub open spec fn digit_char(d: nat) -> char {
    if d == 0 {
        '0'
    } else if d == 1 {
        '1'
    } else if d == 2 {
        '2'
    } else if d == 3 {
        '3'
    } else if d == 4 {
        '4'
    } else if d == 5 {
        '5'
    } else if d == 6 {
        '6'
    } else if d == 7 {
        '7'
    } else if d == 8 {
        '8'
    } else {
        '9'
    }
}

/// The decimal representation of a natural number, most significant digit
/// first, with no leading zeros (and `0` itself written as "0").
pub open spec fn dec_chars(n: nat) -> Seq<char>
    decreases n,
{
    if n < 10 {
        seq![digit_char(n)]
    } else {
        dec_chars(n / 10).push(digit_char(n % 10))
    }
}

/// A one-character string slice for a single decimal digit.
fn digit_str(d: u8) -> (s: &'static str)
    requires
        d < 10,
    ensures
        s@ =~= seq![digit_char(d as nat)],
{
    proof {
        reveal_strlit("0");
        reveal_strlit("1");
        reveal_strlit("2");
        reveal_strlit("3");
        reveal_strlit("4");
        reveal_strlit("5");
        reveal_strlit("6");
        reveal_strlit("7");
        reveal_strlit("8");
        reveal_strlit("9");
    }
    match d {
        0 => "0",
        1 => "1",
        2 => "2",
        3 => "3",
        4 => "4",
        5 => "5",
        6 => "6",
        7 => "7",
        8 => "8",
        _ => "9",
    }
}

/// The decimal text of a byte value: 0 -> "0", 42 -> "42", 255 -> "255".
pub fn u8_to_decimal(n: u8) -> (s: String)
    ensures
        s@ == dec_chars(n as nat),
{
    let mut s = String::new();
    if n >= 100 {
        s.append(digit_str(n / 100));
    }
    if n >= 10 {
        s.append(digit_str((n / 10) % 10));
    }
    s.append(digit_str(n % 10));
    proof {
        let m = n as nat;
        if n < 10 {
            assert(m % 10 == m);
        } else if n < 100 {
            assert(1 <= m / 10 < 10);
            assert((m / 10) % 10 == m / 10);
            assert(dec_chars(m) == dec_chars(m / 10).push(digit_char(m % 10)));
            assert(dec_chars(m / 10) == seq![digit_char(m / 10)]);
        } else {
            vstd::arithmetic::div_mod::lemma_div_denominator(n as int, 10, 10);
            assert(m / 10 / 10 == m / 100);
            assert(10 <= m / 10 < 26);
            assert(1 <= m / 100 < 10);
            assert(dec_chars(m) == dec_chars(m / 10).push(digit_char(m % 10)));
            assert(dec_chars(m / 10) == dec_chars(m / 10 / 10).push(digit_char((m / 10) % 10)));
            assert(dec_chars(m / 100) == seq![digit_char(m / 100)]);
        }
        assert(s@ =~= dec_chars(n as nat));
    }
    s
}

} // verus!
