use vstd::prelude::*;
use vstd::string::StringExecFns;

verus! {

/// The character of a decimal digit.
pub open spec fn digit_char(d: nat) -> char {
    (d + 48) as char
}

/// The decimal numeral of `n`: its digits, most significant first, with no
/// leading zero ("0" for zero).
pub open spec fn decimal(n: nat) -> Seq<char>
    decreases n,
{
    if n < 10 {
        seq![digit_char(n)]
    } else {
        decimal(n / 10).push(digit_char(n % 10))
    }
}

/// The numeral of one decimal digit.
fn digit_str(d: u64) -> (s: &'static str)
    requires
        d < 10,
    ensures
        s@ == seq![digit_char(d as nat)],
{
    if d == 0 {
        proof {
            reveal_strlit("0");
        }
        "0"
    } else
    if d == 1 {
        proof {
            reveal_strlit("1");
        }
        "1"
    } else
    if d == 2 {
        proof {
            reveal_strlit("2");
        }
        "2"
    } else
    if d == 3 {
        proof {
            reveal_strlit("3");
        }
        "3"
    } else
    if d == 4 {
        proof {
            reveal_strlit("4");
        }
        "4"
    } else
    if d == 5 {
        proof {
            reveal_strlit("5");
        }
        "5"
    } else
    if d == 6 {
        proof {
            reveal_strlit("6");
        }
        "6"
    } else
    if d == 7 {
        proof {
            reveal_strlit("7");
        }
        "7"
    } else
    if d == 8 {
        proof {
            reveal_strlit("8");
        }
        "8"
    } else {
        proof {
            reveal_strlit("9");
        }
        "9"
    }
}

/// Writes `n` in decimal.
pub(crate) fn decimal_string(n: u64) -> (s: String)
    ensures
        s@ == decimal(n as nat),
    decreases n,
{
    if n < 10 {
        String::from_str(digit_str(n))
    } else {
        let mut s = decimal_string(n / 10);
        s.append(digit_str(n % 10));
        s
    }
}

} // verus!
