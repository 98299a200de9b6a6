//! Decimal text of integers and of fixed-point thousandths.
use vstd::prelude::*;

verus! {

pub open spec fn digit_char(d: int) -> char {
    seq!['0', '1', '2', '3', '4', '5', '6', '7', '8', '9'][d]
}

/// Decimal digits of `n`, without leading zeros.
pub open spec fn nat_text(n: nat) -> Seq<char>
    decreases n,
{
    if n < 10 {
        seq![digit_char(n as int)]
    } else {
        nat_text(n / 10).push(digit_char((n % 10) as int))
    }
}

/// `v` thousandths with one decimal, truncated toward zero.
pub open spec fn fixed1(v: int) -> Seq<char> {
    let m = if v < 0 { -v } else { v };
    let sign = if m / 100 > 0 && v < 0 { seq!['-'] } else { Seq::empty() };
    sign + nat_text((m / 1000) as nat) + seq!['.', digit_char((m / 100) % 10)]
}

/// `v` thousandths with two decimals, truncated toward zero.
pub open spec fn fixed2(v: int) -> Seq<char> {
    let m = if v < 0 { -v } else { v };
    let sign = if m / 10 > 0 && v < 0 { seq!['-'] } else { Seq::empty() };
    sign + nat_text((m / 1000) as nat) + seq!['.', digit_char((m / 100) % 10), digit_char((m / 10) % 10)]
}

fn push_digit(out: &mut String, d: u128)
    requires
        d < 10,
    ensures
        final(out)@ == old(out)@.push(digit_char(d as int)),
{
    proof {
        reveal_strlit("0");
        reveal_strlit("1");
        reveal_strlit("2");
        reveal_strlit("3");
        reveal_strlit("4");
        reveal_strlit("5");
        reveal_strlit("6");
        reveal_strlit("7");
        reveal_strlit("8");
        reveal_strlit("9");
    }
    let s = if d == 0 {
        "0"
    } else if d == 1 {
        "1"
    } else if d == 2 {
        "2"
    } else if d == 3 {
        "3"
    } else if d == 4 {
        "4"
    } else if d == 5 {
        "5"
    } else if d == 6 {
        "6"
    } else if d == 7 {
        "7"
    } else if d == 8 {
        "8"
    } else {
        "9"
    };
    assert(s@ =~= seq![digit_char(d as int)]);
    out.append(s);
}

/// Appends the decimal digits of `n`.
pub fn push_nat(out: &mut String, n: u128)
    ensures
        final(out)@ == old(out)@ + nat_text(n as nat),
    decreases n,
{
    if n >= 10 {
        push_nat(out, n / 10);
    }
    push_digit(out, n % 10);
    assert(out@ =~= old(out)@ + nat_text(n as nat));
}

fn magnitude(v: i128) -> (r: u128)
    ensures
        r as int == if v < 0 { -(v as int) } else { v as int },
{
    if v < 0 {
        if v == i128::MIN {
            0x8000_0000_0000_0000_0000_0000_0000_0000u128
        } else {
            (-v) as u128
        }
    } else {
        v as u128
    }
}

/// Appends `v` thousandths with one decimal.
pub fn push_fixed1(out: &mut String, v: i128)
    ensures
        final(out)@ == old(out)@ + fixed1(v as int),
{
    let m = magnitude(v);
    let ghost start = out@;
    if m / 100 > 0 && v < 0 {
        out.append("-");
        proof {
            reveal_strlit("-");
        }
    }
    push_nat(out, m / 1000);
    out.append(".");
    proof {
        reveal_strlit(".");
    }
    push_digit(out, (m / 100) % 10);
    assert(out@ =~= start + fixed1(v as int));
}

/// Appends `v` thousandths with two decimals.
pub fn push_fixed2(out: &mut String, v: i128)
    ensures
        final(out)@ == old(out)@ + fixed2(v as int),
{
    let m = magnitude(v);
    let ghost start = out@;
    if m / 10 > 0 && v < 0 {
        out.append("-");
        proof {
            reveal_strlit("-");
        }
    }
    push_nat(out, m / 1000);
    out.append(".");
    proof {
        reveal_strlit(".");
    }
    push_digit(out, (m / 100) % 10);
    push_digit(out, (m / 10) % 10);
    assert(out@ =~= start + fixed2(v as int));
}

} // verus!
