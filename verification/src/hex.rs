//! Hexadecimal rendering of 16-bit values.

use vstd::prelude::*;
use vstd::string::*;

verus! {

/// The lowercase hexadecimal digit for `d`, `d < 16`.
pub open spec fn hex_digit(d: nat) -> char {
    if d < 10 {
        (0x30 + d) as char
    } else {
        (0x57 + d) as char
    }
}

/// The hexadecimal digits of `v`, most significant first, without leading
/// zeros; zero is the single digit `0`.
pub open spec fn hex_digits(v: nat) -> Seq<char>
    decreases v,
{
    if v < 16 {
        seq![hex_digit(v)]
    } else {
        hex_digits(v / 16).push(hex_digit(v % 16))
    }
}

/// `v` as a hexadecimal literal: `0x` and its digits.
pub open spec fn hex_literal(v: nat) -> Seq<char> {
    seq!['0', 'x'] + hex_digits(v)
}

/// The one-character string that holds the hexadecimal digit for `d`.
fn hex_digit_str(d: u16) -> (r: &'static str)
    requires
        d < 16,
    ensures
        r@ == seq![hex_digit(d as nat)],
{
    proof {
        reveal_strlit("0");
        reveal_strlit("1");
        reveal_strlit("2");
        reveal_strlit("3");
        reveal_strlit("4");
        reveal_strlit("5");
        reveal_strlit("6");
        reveal_strlit("7");
        reveal_strlit("8");
        reveal_strlit("9");
        reveal_strlit("a");
        reveal_strlit("b");
        reveal_strlit("c");
        reveal_strlit("d");
        reveal_strlit("e");
        reveal_strlit("f");
    }
    let r = match d {
        0 => "0",
        1 => "1",
        2 => "2",
        3 => "3",
        4 => "4",
        5 => "5",
        6 => "6",
        7 => "7",
        8 => "8",
        9 => "9",
        10 => "a",
        11 => "b",
        12 => "c",
        13 => "d",
        14 => "e",
        _ => "f",
    };
    assert(r@ =~= seq![hex_digit(d as nat)]);
    r
}

/// Renders `v` as `0x` followed by its lowercase hexadecimal digits, without
/// leading zeros.
pub fn hex_string(v: u16) -> (r: String)
    ensures
        r@ == hex_literal(v as nat),
{
    proof {
        reveal_strlit("0x");
        reveal_with_fuel(hex_digits, 4);
    }
    let mut out = String::from_str("0x");
    if v >= 0x1000 {
        out.append(hex_digit_str(v / 0x1000));
    }
    if v >= 0x100 {
        out.append(hex_digit_str((v / 0x100) % 16));
    }
    if v >= 0x10 {
        out.append(hex_digit_str((v / 0x10) % 16));
    }
    out.append(hex_digit_str(v % 16));
    assert(out@ =~= hex_literal(v as nat));
    out
}

} // verus!
