//! Decimal-string rendering of integer amounts, so that amounts of any token
//! decimal count survive the output format without precision loss.

use vstd::prelude::*;
use vstd::string::StringExecFns;

verus! {

/// The decimal digit character for `d < 10`.
pub open spec fn digit_char(d: nat) -> char {
    if d == 0 {
        '0'
    } else if d == 1 {
        '1'
    } else if d == 2 {
        '2'
    } else if d == 3 {
        '3'
    } else if d == 4 {
        '4'
    } else if d == 5 {
        '5'
    } else if d == 6 {
        '6'
    } else if d == 7 {
        '7'
    } else if d == 8 {
        '8'
    } else {
        '9'
    }
}

/// The decimal text of a natural number, most significant digit first, with
/// no leading zero except for the number zero itself.
pub open spec fn dec_of(n: nat) -> Seq<char>
    decreases n,
{
    if n < 10 {
        seq![digit_char(n)]
    } else {
        dec_of(n / 10).push(digit_char(n % 10))
    }
}

/// The decimal text of a (possibly negative) integer.
pub open spec fn dec_signed_of(n: int) -> Seq<char> {
    if n >= 0 {
        dec_of(n as nat)
    } else {
        seq!['-'] + dec_of((-n) as nat)
    }
}

fn digit_string(d: u64) -> (r: String)
    requires
        d < 10,
    ensures
        r@ == seq![digit_char(d as nat)],
{
    let s: String = if d == 0 {
        "0".to_owned()
    } else if d == 1 {
        "1".to_owned()
    } else if d == 2 {
        "2".to_owned()
    } else if d == 3 {
        "3".to_owned()
    } else if d == 4 {
        "4".to_owned()
    } else if d == 5 {
        "5".to_owned()
    } else if d == 6 {
        "6".to_owned()
    } else if d == 7 {
        "7".to_owned()
    } else if d == 8 {
        "8".to_owned()
    } else {
        "9".to_owned()
    };
    proof {
        reveal_strlit("0");
        reveal_strlit("1");
        reveal_strlit("2");
        reveal_strlit("3");
        reveal_strlit("4");
        reveal_strlit("5");
        reveal_strlit("6");
        reveal_strlit("7");
        reveal_strlit("8");
        reveal_strlit("9");
        assert(s@ =~= seq![digit_char(d as nat)]);
    }
    s
}

/// Renders an unsigned amount as decimal text.
pub fn u64_to_dec(n: u64) -> (r: String)
    ensures
        r@ == dec_of(n as nat),
{
    let mut s = String::new();
    let mut m: u64 = n;
    if m == 0 {
        return digit_string(0);
    }
    while m > 0
        invariant
            m > 0 ==> dec_of(n as nat) == dec_of(m as nat) + s@,
            m == 0 ==> dec_of(n as nat) == s@,
        decreases m,
    {
        let d: u64 = m % 10;
        let rest: u64 = m / 10;
        let digit = digit_string(d);
        let t = digit.concat(s.as_str());
        proof {
            assert(dec_of(m as nat) == if m < 10 {
                seq![digit_char((m % 10) as nat)]
            } else {
                dec_of((m / 10) as nat).push(digit_char((m % 10) as nat))
            });
            if rest > 0 {
                assert(dec_of(m as nat) =~= dec_of(rest as nat) + t@.subrange(0, 1));
                assert(dec_of(n as nat) =~= dec_of(rest as nat) + t@);
            } else {
                assert(m < 10);
                assert(dec_of(m as nat) =~= t@.subrange(0, 1));
                assert(dec_of(n as nat) =~= t@);
            }
        }
        s = t;
        m = rest;
    }
    s
}

/// Renders a signed amount (such as a block timestamp) as decimal text.
pub fn i64_to_dec(n: i64) -> (r: String)
    ensures
        r@ == dec_signed_of(n as int),
{
    if n >= 0 {
        u64_to_dec(n as u64)
    } else {
        let magnitude: u64 = ((-(n + 1)) as u64) + 1;
        assert(magnitude == -(n as int));
        let mut s: String = "-".to_owned();
        let digits = u64_to_dec(magnitude);
        s.append(digits.as_str());
        proof {
            reveal_strlit("-");
            assert(s@ =~= dec_signed_of(n as int));
        }
        s
    }
}

} // verus!
