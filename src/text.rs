//! Decimal renderings of integers, as they appear in query strings and
//! diagnostics.
use vstd::prelude::*;
use vstd::string::*;

verus! {

pub open spec fn digit_char(d: nat) -> char {
    if d == 0 {
        '0'
    } else if d == 1 {
        '1'
    } else if d == 2 {
        '2'
    } else if d == 3 {
        '3'
    } else if d == 4 {
        '4'
    } else if d == 5 {
        '5'
    } else if d == 6 {
        '6'
    } else if d == 7 {
        '7'
    } else if d == 8 {
        '8'
    } else {
        '9'
    }
}

/// The decimal digits of `n`, most significant first, with no leading zero.
pub open spec fn nat_decimal(n: nat) -> Seq<char>
    decreases n,
{
    if n < 10 {
        seq![digit_char(n)]
    } else {
        nat_decimal(n / 10) + seq![digit_char(n % 10)]
    }
}

/// The decimal rendering of `n`, with a leading `-` when it is negative.
pub open spec fn int_decimal(n: int) -> Seq<char> {
    if n < 0 {
        seq!['-'] + nat_decimal((-n) as nat)
    } else {
        nat_decimal(n as nat)
    }
}

fn digit_str(d: u64) -> (r: &'static str)
    requires
        d < 10,
    ensures
        r@ == seq![digit_char(d as nat)],
{
    proof {
        reveal_strlit("0");
        reveal_strlit("1");
        reveal_strlit("2");
        reveal_strlit("3");
        reveal_strlit("4");
        reveal_strlit("5");
        reveal_strlit("6");
        reveal_strlit("7");
        reveal_strlit("8");
        reveal_strlit("9");
    }
    if d == 0 {
        "0"
    } else if d == 1 {
        "1"
    } else if d == 2 {
        "2"
    } else if d == 3 {
        "3"
    } else if d == 4 {
        "4"
    } else if d == 5 {
        "5"
    } else if d == 6 {
        "6"
    } else if d == 7 {
        "7"
    } else if d == 8 {
        "8"
    } else {
        "9"
    }
}

/// Renders `n` in decimal.
pub fn u64_decimal(n: u64) -> (r: String)
    ensures
        r@ == nat_decimal(n as nat),
{
    let mut rest: u64 = n / 10;
    let mut r = String::from_str(digit_str(n % 10));
    while rest > 0
        invariant
            rest <= n / 10,
            rest > 0 ==> nat_decimal(n as nat) == nat_decimal(rest as nat) + r@,
            rest == 0 ==> r@ == nat_decimal(n as nat),
        decreases rest,
    {
        let d = digit_str(rest % 10);
        proof {
            if rest >= 10 {
                assert(nat_decimal(rest as nat) == nat_decimal((rest / 10) as nat) + seq![
                    digit_char((rest % 10) as nat),
                ]);
            }
        }
        r = String::from_str(d).concat(r.as_str());
        rest = rest / 10;
        proof {
            if rest > 0 {
                assert(nat_decimal(n as nat) == nat_decimal(rest as nat) + r@);
            }
        }
    }
    r
}

/// Renders `n` in decimal, with a leading `-` when it is negative.
pub fn i64_decimal(n: i64) -> (r: String)
    ensures
        r@ == int_decimal(n as int),
{
    if n < 0 {
        let magnitude: u64 = if n == i64::MIN {
            9223372036854775808u64
        } else {
            (-n) as u64
        };
        proof {
            reveal_strlit("-");
        }
        String::from_str("-").concat(u64_decimal(magnitude).as_str())
    } else {
        u64_decimal(n as u64)
    }
}

/// A pair of strings, such as a query parameter, as a pair of views.
pub open spec fn pair_view(p: (String, String)) -> (Seq<char>, Seq<char>) {
    (p.0@, p.1@)
}

} // verus!
