//! Decimal rendering of counts for status texts.
use vstd::prelude::*;

verus! {

pub open spec fn digit_char(d: nat) -> char {
    if d == 0 { '0' }
    else if d == 1 { '1' }
    else if d == 2 { '2' }
    else if d == 3 { '3' }
    else if d == 4 { '4' }
    else if d == 5 { '5' }
    else if d == 6 { '6' }
    else if d == 7 { '7' }
    else if d == 8 { '8' }
    else { '9' }
}

/// The decimal digits of `n`, most significant first, without leading zeros.
pub open spec fn decimal_of(n: nat) -> Seq<char>
    decreases n,
{
    if n < 10 {
        seq![digit_char(n)]
    } else {
        decimal_of(n / 10) + seq![digit_char(n % 10)]
    }
}

fn digit_str(d: usize) -> (r: &'static str)
    requires
        d < 10,
    ensures
        r@ == seq![digit_char(d as nat)],
{
    proof {
        reveal_strlit("0");
        reveal_strlit("1");
        reveal_strlit("2");
        reveal_strlit("3");
        reveal_strlit("4");
        reveal_strlit("5");
        reveal_strlit("6");
        reveal_strlit("7");
        reveal_strlit("8");
        reveal_strlit("9");
    }
    let r = if d == 0 { "0" }
    else if d == 1 { "1" }
    else if d == 2 { "2" }
    else if d == 3 { "3" }
    else if d == 4 { "4" }
    else if d == 5 { "5" }
    else if d == 6 { "6" }
    else if d == 7 { "7" }
    else if d == 8 { "8" }
    else { "9" };
    assert(r@ =~= seq![digit_char(d as nat)]);
    r
}

/// The decimal text of `n`.
pub fn decimal(n: usize) -> (r: String)
    ensures
        r@ == decimal_of(n as nat),
{
    let mut m: usize = n;
    let mut out = String::new();
    while m >= 10
        invariant
            decimal_of(n as nat) == decimal_of(m as nat) + out@,
        decreases m,
    {
        let d = m % 10;
        let ghost old_out = out@;
        out = String::from_str(digit_str(d)).concat(out.as_str());
        proof {
            assert(decimal_of(m as nat) == decimal_of((m / 10) as nat) + seq![digit_char(d as nat)]);
            assert(decimal_of(n as nat) =~= decimal_of((m / 10) as nat) + out@);
        }
        m = m / 10;
    }
    let r = String::from_str(digit_str(m)).concat(out.as_str());
    proof {
        assert(decimal_of(n as nat) =~= r@);
    }
    r
}

} // verus!
