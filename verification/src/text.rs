//! Decimal numerals and small string tools shared by the other modules.

use vstd::prelude::*;
use vstd::string::StringExecFns;

verus! {

/// The character that stands for one decimal digit.
pub open spec fn digit_char(d: nat) -> char
    recommends
        d < 10,
{
    if d == 0 {
        '0'
    } else if d == 1 {
        '1'
    } else if d == 2 {
        '2'
    } else if d == 3 {
        '3'
    } else if d == 4 {
        '4'
    } else if d == 5 {
        '5'
    } else if d == 6 {
        '6'
    } else if d == 7 {
        '7'
    } else if d == 8 {
        '8'
    } else {
        '9'
    }
}

/// The decimal digits of a natural number, most significant first, without
/// leading zeros (zero itself is the single digit `0`).
pub open spec fn digits(n: nat) -> Seq<char>
    decreases n,
{
    if n < 10 {
        seq![digit_char(n)]
    } else {
        digits(n / 10).push(digit_char(n % 10))
    }
}

/// The decimal numeral of an integer: a minus sign for a negative one, then
/// the digits of its magnitude.
pub open spec fn decimal(v: int) -> Seq<char> {
    if v < 0 {
        seq!['-'] + digits((-v) as nat)
    } else {
        digits(v as nat)
    }
}

/// The text of one decimal digit.
fn digit_str(d: u128) -> (r: &'static str)
    requires
        d < 10,
    ensures
        r@ == seq![digit_char(d as nat)],
{
    proof {
        reveal_strlit("0");
        reveal_strlit("1");
        reveal_strlit("2");
        reveal_strlit("3");
        reveal_strlit("4");
        reveal_strlit("5");
        reveal_strlit("6");
        reveal_strlit("7");
        reveal_strlit("8");
        reveal_strlit("9");
    }
    let r = if d == 0 {
        "0"
    } else if d == 1 {
        "1"
    } else if d == 2 {
        "2"
    } else if d == 3 {
        "3"
    } else if d == 4 {
        "4"
    } else if d == 5 {
        "5"
    } else if d == 6 {
        "6"
    } else if d == 7 {
        "7"
    } else if d == 8 {
        "8"
    } else {
        "9"
    };
    proof {
        assert(r@ =~= seq![digit_char(d as nat)]);
    }
    r
}

/// The decimal digits of a natural number as a string.
fn digits_string(n: u128) -> (r: String)
    ensures
        r@ == digits(n as nat),
{
    let mut rest: u128 = n / 10;
    let mut s: String = String::from_str(digit_str(n % 10));
    proof {
        if n >= 10 {
            assert(digits(n as nat) =~= digits(rest as nat) + s@);
        }
    }
    while rest > 0
        invariant
            rest > 0 ==> digits(n as nat) == digits(rest as nat) + s@,
            rest == 0 ==> digits(n as nat) == s@,
        decreases rest,
    {
        let ghost tail = s@;
        let ghost upper = rest;
        let d: u128 = rest % 10;
        s = String::from_str(digit_str(d)).concat(s.as_str());
        rest = rest / 10;
        proof {
            if upper >= 10 {
                assert(digits(upper as nat) == digits(rest as nat).push(digit_char(d as nat)));
                assert(digits(n as nat) =~= digits(rest as nat) + s@);
            } else {
                assert(digits(upper as nat) == seq![digit_char(d as nat)]);
                assert(digits(n as nat) =~= s@);
            }
        }
    }
    s
}

/// The decimal numeral of an integer as a string.
pub(crate) fn decimal_string(v: i128) -> (r: String)
    ensures
        r@ == decimal(v as int),
{
    if v >= 0 {
        digits_string(v as u128)
    } else {
        let magnitude: u128 = ((-(v + 1)) as u128) + 1;
        proof {
            reveal_strlit("-");
            assert("-"@ =~= seq!['-']);
        }
        String::from_str("-").concat(digits_string(magnitude).as_str())
    }
}

/// A text as std's `Debug` for `str` writes it: between double quotes, with
/// the characters that it escapes written as their escapes.
pub uninterp spec fn quoted(s: Seq<char>) -> Seq<char>;

/// Formats a string with std's `Debug` for `str`. The contract only gives
/// the outcome its name: the rules of escaping are std's and are not
/// restated here.
#[verifier::external_body]
pub(crate) fn quoted_string(s: &str) -> (r: String)
    ensures
        r@ == quoted(s@),
{
    format!("{:?}", s)
}

/// The texts of a list of strings.
pub open spec fn texts(v: Seq<String>) -> Seq<Seq<char>> {
    Seq::new(v.len(), |i: int| v[i]@)
}

/// The texts of a list of pairs of strings.
pub open spec fn pairs(v: Seq<(String, String)>) -> Seq<(Seq<char>, Seq<char>)> {
    Seq::new(v.len(), |i: int| (v[i].0@, v[i].1@))
}

} // verus!
