//! Decimal rendering of unsigned integers, used by every time format and by
//! the summary lines.

use vstd::prelude::*;

verus! {

/// The decimal digit character for `d`, which must lie below 10.
pub open spec fn dec_digit(d: nat) -> char {
    if d == 0 {
        '0'
    } else if d == 1 {
        '1'
    } else if d == 2 {
        '2'
    } else if d == 3 {
        '3'
    } else if d == 4 {
        '4'
    } else if d == 5 {
        '5'
    } else if d == 6 {
        '6'
    } else if d == 7 {
        '7'
    } else if d == 8 {
        '8'
    } else {
        '9'
    }
}

/// The decimal rendering of `n`, most significant digit first, without
/// leading zeros (zero itself renders as a single "0").
pub open spec fn dec_str(n: nat) -> Seq<char>
    decreases n,
{
    if n < 10 {
        seq![dec_digit(n)]
    } else {
        dec_str(n / 10) + seq![dec_digit(n % 10)]
    }
}

/// The two-digit, left-zero-padded decimal rendering of `n`, which must lie
/// below 100.
pub open spec fn dec_str2(n: nat) -> Seq<char> {
    seq![dec_digit(n / 10), dec_digit(n % 10)]
}

fn digit_string(d: u64) -> (r: String)
    requires
        d < 10,
    ensures
        r@ == seq![dec_digit(d as nat)],
{
    let s: &str = if d == 0 {
        "0"
    } else if d == 1 {
        "1"
    } else if d == 2 {
        "2"
    } else if d == 3 {
        "3"
    } else if d == 4 {
        "4"
    } else if d == 5 {
        "5"
    } else if d == 6 {
        "6"
    } else if d == 7 {
        "7"
    } else if d == 8 {
        "8"
    } else {
        "9"
    };
    proof {
        reveal_strlit("0");
        reveal_strlit("1");
        reveal_strlit("2");
        reveal_strlit("3");
        reveal_strlit("4");
        reveal_strlit("5");
        reveal_strlit("6");
        reveal_strlit("7");
        reveal_strlit("8");
        reveal_strlit("9");
        assert(s@ =~= seq![dec_digit(d as nat)]);
    }
    s.to_owned()
}

/// Renders `n` in decimal, most significant digit first.
pub fn u64_to_string(n: u64) -> (r: String)
    ensures
        r@ == dec_str(n as nat),
    decreases n,
{
    if n < 10 {
        digit_string(n)
    } else {
        let q: u64 = n / 10;
        let m: u64 = n % 10;
        let high = u64_to_string(q);
        let low = digit_string(m);
        let r = high.concat(low.as_str());
        proof {
            assert(q as nat == (n as nat) / 10);
            assert(m as nat == (n as nat) % 10);
            assert(r@ =~= dec_str(n as nat));
        }
        r
    }
}

/// Renders `n`, which must lie below 100, as exactly two decimal digits.
pub fn u64_to_string2(n: u64) -> (r: String)
    requires
        n < 100,
    ensures
        r@ == dec_str2(n as nat),
{
    let high = digit_string(n / 10);
    let low = digit_string(n % 10);
    let r = high.concat(low.as_str());
    proof {
        assert(r@ =~= dec_str2(n as nat));
    }
    r
}

} // verus!
