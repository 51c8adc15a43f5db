//! Canonical decimal text of integers: no leading zeros, a leading `-` for
//! negative values.

use vstd::prelude::*;
use vstd::string::StringExecFns;

verus! {

/// The character of a decimal digit.
pub open spec fn digit_char(d: nat) -> char {
    if d == 0 { '0' }
    else if d == 1 { '1' }
    else if d == 2 { '2' }
    else if d == 3 { '3' }
    else if d == 4 { '4' }
    else if d == 5 { '5' }
    else if d == 6 { '6' }
    else if d == 7 { '7' }
    else if d == 8 { '8' }
    else { '9' }
}

/// The decimal digits of `n`, most significant first, without leading zeros.
pub open spec fn decimal_of_nat(n: nat) -> Seq<char>
    decreases n,
{
    if n < 10 {
        seq![digit_char(n)]
    } else {
        decimal_of_nat(n / 10).push(digit_char(n % 10))
    }
}

/// The decimal text of an integer: its magnitude's digits, after a `-` when negative.
pub open spec fn decimal_of(n: int) -> Seq<char> {
    if n < 0 {
        seq!['-'] + decimal_of_nat((-n) as nat)
    } else {
        decimal_of_nat(n as nat)
    }
}

/// Ten to the power `k`.
pub open spec fn pow10(k: nat) -> nat
    decreases k,
{
    if k == 0 {
        1
    } else {
        10 * pow10((k - 1) as nat)
    }
}

/// A number below ten to the power `k` has at most `k` digits.
pub proof fn lemma_decimal_nat_len(n: nat, k: nat)
    requires
        1 <= k,
        n < pow10(k),
    ensures
        decimal_of_nat(n).len() <= k,
    decreases k,
{
    if n >= 10 {
        if k == 1 {
            assert(pow10(1) == 10 * pow10(0));
        } else {
            let p = pow10((k - 1) as nat);
            assert(n / 10 < p) by (nonlinear_arith)
                requires
                    n < 10 * p,
            ;
            lemma_decimal_nat_len(n / 10, (k - 1) as nat);
        }
    }
}

/// The decimal text of a 128-bit integer, signed or not, has at most 40
/// characters.
pub proof fn lemma_decimal_len(n: int)
    requires
        -0x1_0000_0000_0000_0000_0000_0000_0000_0000 <= n < 0x1_0000_0000_0000_0000_0000_0000_0000_0000,
    ensures
        decimal_of(n).len() <= 40,
{
    reveal_with_fuel(pow10, 40);
    assert(pow10(39) == 1_000_000_000_000_000_000_000_000_000_000_000_000_000nat);
    if n < 0 {
        lemma_decimal_nat_len((-n) as nat, 39);
    } else {
        lemma_decimal_nat_len(n as nat, 39);
    }
}

fn digit_str(d: u128) -> (r: &'static str)
    requires
        d < 10,
    ensures
        r@ == seq![digit_char(d as nat)],
{
    proof {
        reveal_strlit("0");
        reveal_strlit("1");
        reveal_strlit("2");
        reveal_strlit("3");
        reveal_strlit("4");
        reveal_strlit("5");
        reveal_strlit("6");
        reveal_strlit("7");
        reveal_strlit("8");
        reveal_strlit("9");
    }
    if d == 0 { "0" }
    else if d == 1 { "1" }
    else if d == 2 { "2" }
    else if d == 3 { "3" }
    else if d == 4 { "4" }
    else if d == 5 { "5" }
    else if d == 6 { "6" }
    else if d == 7 { "7" }
    else if d == 8 { "8" }
    else { "9" }
}

fn append_digits(out: &mut String, n: u128)
    ensures
        final(out)@ == old(out)@ + decimal_of_nat(n as nat),
    decreases n,
{
    if n >= 10 {
        append_digits(out, n / 10);
    }
    out.append(digit_str(n % 10));
    proof {
        if n >= 10 {
            assert(old(out)@ + decimal_of_nat(n as nat) =~= old(out)@ + decimal_of_nat((n / 10) as nat) + seq![digit_char((n % 10) as nat)]);
        }
    }
}

/// Renders an unsigned integer as decimal text.
pub fn u128_to_decimal(n: u128) -> (r: String)
    ensures
        r@ == decimal_of(n as int),
{
    let mut out = String::new();
    append_digits(&mut out, n);
    assert(out@ =~= decimal_of(n as int));
    out
}

/// Renders a signed integer as decimal text.
pub fn i128_to_decimal(n: i128) -> (r: String)
    ensures
        r@ == decimal_of(n as int),
{
    proof {
        reveal_strlit("-");
    }
    if n < 0 {
        let mut out = String::from_str("-");
        let magnitude: u128 = ((-(n + 1)) as u128) + 1;
        append_digits(&mut out, magnitude);
        assert(out@ =~= decimal_of(n as int));
        out
    } else {
        u128_to_decimal(n as u128)
    }
}

} // verus!
