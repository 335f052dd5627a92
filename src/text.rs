//! Writing numbers into text.

use vstd::prelude::*;
use vstd::string::StringExecFns;
use crate::model::{decimal, digit_char};

verus! {

/// Appends the character of the digit `d`.
fn append_digit(s: &mut String, d: usize)
    requires
        d < 10,
    ensures
        final(s)@ == old(s)@.push(digit_char(d as nat)),
{
    let lit = match d {
        0 => "0",
        1 => "1",
        2 => "2",
        3 => "3",
        4 => "4",
        5 => "5",
        6 => "6",
        7 => "7",
        8 => "8",
        _ => "9",
    };
    proof {
        reveal_strlit("0");
        reveal_strlit("1");
        reveal_strlit("2");
        reveal_strlit("3");
        reveal_strlit("4");
        reveal_strlit("5");
        reveal_strlit("6");
        reveal_strlit("7");
        reveal_strlit("8");
        reveal_strlit("9");
    }
    s.append(lit);
    proof {
        assert(old(s)@ + lit@ =~= old(s)@.push(digit_char(d as nat)));
    }
}

/// Appends the decimal digits of `n`.
pub(crate) fn append_decimal(s: &mut String, n: usize)
    ensures
        final(s)@ == old(s)@ + decimal(n as nat),
    decreases n,
{
    if n >= 10 {
        append_decimal(s, n / 10);
        append_digit(s, n % 10);
        proof {
            let pre = old(s)@;
            let head = decimal((n / 10) as nat);
            let c = digit_char((n % 10) as nat);
            assert((pre + head).push(c) =~= pre + head.push(c));
        }
    } else {
        append_digit(s, n);
        proof {
            assert(old(s)@.push(digit_char(n as nat)) =~= old(s)@ + decimal(n as nat));
        }
    }
}

} // verus!
