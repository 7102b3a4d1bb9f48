//! A fixed-width bit-flag tag set: a word of flag bits whose union is
//! bitwise-or, rendered as a hexadecimal numeral.

use crate::Tags;
use vstd::prelude::*;
use vstd::string::StringExecFns;

verus! {

/// The character for one hexadecimal digit value.
pub open spec fn hex_digit(d: u64) -> char {
    if d == 0 {
        '0'
    } else if d == 1 {
        '1'
    } else if d == 2 {
        '2'
    } else if d == 3 {
        '3'
    } else if d == 4 {
        '4'
    } else if d == 5 {
        '5'
    } else if d == 6 {
        '6'
    } else if d == 7 {
        '7'
    } else if d == 8 {
        '8'
    } else if d == 9 {
        '9'
    } else if d == 10 {
        'a'
    } else if d == 11 {
        'b'
    } else if d == 12 {
        'c'
    } else if d == 13 {
        'd'
    } else if d == 14 {
        'e'
    } else {
        'f'
    }
}

/// The hexadecimal digits of a word, most significant first, without
/// leading zeros (a single zero digit for the zero word).
pub open spec fn hex_chars(n: u64) -> Seq<char>
    decreases n,
{
    if n < 16 {
        seq![hex_digit(n)]
    } else {
        hex_chars(n / 16).push(hex_digit(n % 16))
    }
}

fn hex_digit_str(d: u64) -> (r: &'static str)
    requires
        d < 16,
    ensures
        r@ == seq![hex_digit(d)],
{
    proof {
        reveal_strlit("0");
        reveal_strlit("1");
        reveal_strlit("2");
        reveal_strlit("3");
        reveal_strlit("4");
        reveal_strlit("5");
        reveal_strlit("6");
        reveal_strlit("7");
        reveal_strlit("8");
        reveal_strlit("9");
        reveal_strlit("a");
        reveal_strlit("b");
        reveal_strlit("c");
        reveal_strlit("d");
        reveal_strlit("e");
        reveal_strlit("f");
    }
    match d {
        0 => "0",
        1 => "1",
        2 => "2",
        3 => "3",
        4 => "4",
        5 => "5",
        6 => "6",
        7 => "7",
        8 => "8",
        9 => "9",
        10 => "a",
        11 => "b",
        12 => "c",
        13 => "d",
        14 => "e",
        _ => "f",
    }
}

fn hex_str(n: u64) -> (r: String)
    ensures
        r@ == hex_chars(n),
    decreases n,
{
    if n < 16 {
        hex_digit_str(n).to_owned()
    } else {
        proof {
            assert(n / 16 < n) by (nonlinear_arith)
                requires
                    n >= 16,
            ;
        }
        let mut acc = hex_str(n / 16);
        acc.append(hex_digit_str(n % 16));
        proof {
            assert(hex_chars(n / 16) + seq![hex_digit(n % 16)] =~= hex_chars(n / 16).push(
                hex_digit(n % 16),
            ));
        }
        acc
    }
}

/// A tag set of fixed-width flag bits; `union` is bitwise-or.
#[derive(Clone, Copy)]
pub struct Bitflags(pub u64);

impl Tags for Bitflags {
    open spec fn bits(&self) -> u64 {
        self.0
    }

    open spec fn debug_view(&self) -> Seq<char> {
        "0x"@ + hex_chars(self.0)
    }

    open spec fn display_view(&self) -> Seq<char> {
        "0x"@ + hex_chars(self.0)
    }

    fn empty() -> (r: Self) {
        Bitflags(0)
    }

    fn union(self, other: Self) -> (r: Self) {
        Bitflags(self.0 | other.0)
    }

    fn debug_str(&self) -> (r: String) {
        let mut acc: String = "0x".to_owned();
        acc.append(hex_str(self.0).as_str());
        acc
    }

    fn display_str(&self) -> (r: String) {
        self.debug_str()
    }
}

} // verus!
