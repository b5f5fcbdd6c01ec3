//! Executable character-level helpers: capitalizing a letter and rendering
//! decimal digits, each proved against the model's spec functions.

use crate::model::{digit_char, is_lower_char, upper_char};
use vstd::prelude::*;

verus! {

/// The one-character string holding the uppercase form of the lowercase
/// ASCII letter `c`.
pub fn upper_str(c: char) -> (r: &'static str)
    requires
        is_lower_char(c),
    ensures
        r@ == seq![upper_char(c)],
{
    let r: &'static str = match c {
        'a' => "A",
        'b' => "B",
        'c' => "C",
        'd' => "D",
        'e' => "E",
        'f' => "F",
        'g' => "G",
        'h' => "H",
        'i' => "I",
        'j' => "J",
        'k' => "K",
        'l' => "L",
        'm' => "M",
        'n' => "N",
        'o' => "O",
        'p' => "P",
        'q' => "Q",
        'r' => "R",
        's' => "S",
        't' => "T",
        'u' => "U",
        'v' => "V",
        'w' => "W",
        'x' => "X",
        'y' => "Y",
        _ => "Z",
    };
    proof {
        reveal_strlit("A");
        reveal_strlit("B");
        reveal_strlit("C");
        reveal_strlit("D");
        reveal_strlit("E");
        reveal_strlit("F");
        reveal_strlit("G");
        reveal_strlit("H");
        reveal_strlit("I");
        reveal_strlit("J");
        reveal_strlit("K");
        reveal_strlit("L");
        reveal_strlit("M");
        reveal_strlit("N");
        reveal_strlit("O");
        reveal_strlit("P");
        reveal_strlit("Q");
        reveal_strlit("R");
        reveal_strlit("S");
        reveal_strlit("T");
        reveal_strlit("U");
        reveal_strlit("V");
        reveal_strlit("W");
        reveal_strlit("X");
        reveal_strlit("Y");
        reveal_strlit("Z");
        assert(r@ =~= seq![upper_char(c)]);
    }
    r
}

/// The one-character string holding the decimal digit `d`.
pub fn digit_str(d: usize) -> (r: &'static str)
    requires
        d <= 9,
    ensures
        r@ == seq![digit_char(d as int)],
{
    let r: &'static str = match d {
        0 => "0",
        1 => "1",
        2 => "2",
        3 => "3",
        4 => "4",
        5 => "5",
        6 => "6",
        7 => "7",
        8 => "8",
        _ => "9",
    };
    proof {
        reveal_strlit("0");
        reveal_strlit("1");
        reveal_strlit("2");
        reveal_strlit("3");
        reveal_strlit("4");
        reveal_strlit("5");
        reveal_strlit("6");
        reveal_strlit("7");
        reveal_strlit("8");
        reveal_strlit("9");
        assert(r@ =~= seq![digit_char(d as int)]);
    }
    r
}

} // verus!
