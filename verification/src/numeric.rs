//! Decimal rendering of unsigned integers, used by the reply formatter.

use vstd::prelude::*;
use vstd::string::*;

verus! {

/// The character for a single decimal digit value.
pub open spec fn dec_digit(d: nat) -> char
    recommends
        d < 10,
{
    if d == 0 {
        '0'
    } else if d == 1 {
        '1'
    } else if d == 2 {
        '2'
    } else if d == 3 {
        '3'
    } else if d == 4 {
        '4'
    } else if d == 5 {
        '5'
    } else if d == 6 {
        '6'
    } else if d == 7 {
        '7'
    } else if d == 8 {
        '8'
    } else {
        '9'
    }
}

/// The usual decimal rendering of `n`, with no sign and no leading zeros
/// (except for `n == 0`, rendered as "0").
pub open spec fn dec_of(n: nat) -> Seq<char>
    decreases n,
{
    if n < 10 {
        seq![dec_digit(n)]
    } else {
        dec_of(n / 10).push(dec_digit(n % 10))
    }
}

/// The one-character string for a digit value.
fn digit_str(d: u8) -> (s: &'static str)
    requires
        d < 10,
    ensures
        s@ =~= seq![dec_digit(d as nat)],
{
    match d {
        0 => {
            let s = "0";
            proof {
                reveal_strlit("0");
            }
            s
        },
        1 => {
            let s = "1";
            proof {
                reveal_strlit("1");
            }
            s
        },
        2 => {
            let s = "2";
            proof {
                reveal_strlit("2");
            }
            s
        },
        3 => {
            let s = "3";
            proof {
                reveal_strlit("3");
            }
            s
        },
        4 => {
            let s = "4";
            proof {
                reveal_strlit("4");
            }
            s
        },
        5 => {
            let s = "5";
            proof {
                reveal_strlit("5");
            }
            s
        },
        6 => {
            let s = "6";
            proof {
                reveal_strlit("6");
            }
            s
        },
        7 => {
            let s = "7";
            proof {
                reveal_strlit("7");
            }
            s
        },
        8 => {
            let s = "8";
            proof {
                reveal_strlit("8");
            }
            s
        },
        _ => {
            let s = "9";
            proof {
                reveal_strlit("9");
            }
            s
        },
    }
}

/// Renders `n` in decimal.
pub fn u128_to_dec(n: u128) -> (s: String)
    ensures
        s@ == dec_of(n as nat),
    decreases n,
{
    if n < 10 {
        String::from_str(digit_str(n as u8))
    } else {
        let mut s = u128_to_dec(n / 10);
        s.append(digit_str((n % 10) as u8));
        proof {
            assert(s@ =~= dec_of(n as nat));
        }
        s
    }
}

/// Renders `n` in decimal.
pub fn u64_to_dec(n: u64) -> (s: String)
    ensures
        s@ == dec_of(n as nat),
{
    u128_to_dec(n as u128)
}

} // verus!
