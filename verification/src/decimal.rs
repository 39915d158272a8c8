//! Decimal notation of natural numbers, as ASCII bytes.

use vstd::prelude::*;

verus! {

/// The ASCII code of the decimal digit `d`.
pub open spec fn digit(d: nat) -> u8
    recommends
        d < 10,
{
    (48 + d) as u8
}

/// The decimal notation of `n`: most significant digit first, no sign, and
/// no leading zero except for the single digit of zero itself.
pub open spec fn decimal(n: nat) -> Seq<u8>
    decreases n,
{
    if n < 10 {
        seq![digit(n)]
    } else {
        decimal(n / 10).push(digit(n % 10))
    }
}

/// How many digits the decimal notation of `n` has.
pub open spec fn digits(n: nat) -> nat
    decreases n,
{
    if n < 10 {
        1
    } else {
        digits(n / 10) + 1
    }
}

/// The notation of `n` has `digits(n)` bytes, each of them a digit, and
/// begins with `0` only when `n` is zero.
pub proof fn decimal_shape(n: nat)
    ensures
        decimal(n).len() == digits(n),
        forall|i: int| 0 <= i < decimal(n).len() ==> 48 <= #[trigger] decimal(n)[i] <= 57,
        n > 0 ==> decimal(n)[0] != 48,
    decreases n,
{
    if n >= 10 {
        decimal_shape(n / 10);
    }
}

/// Appends the decimal notation of `n` to `out`.
pub fn push_decimal(out: &mut Vec<u8>, n: usize)
    ensures
        final(out)@ == old(out)@ + decimal(n as nat),
{
    let mut reversed: Vec<u8> = Vec::new();
    let mut rest: usize = n;
    while rest >= 10
        invariant
            decimal(n as nat) == decimal(rest as nat) + reversed@.reverse(),
        decreases rest,
    {
        let low: usize = rest % 10;
        reversed.push(48u8 + low as u8);
        proof {
            let prior = reversed@.drop_last();
            assert(reversed@.reverse() =~= seq![digit(low as nat)] + prior.reverse());
            assert(decimal(rest as nat) + prior.reverse() =~= decimal((rest / 10) as nat)
                + reversed@.reverse());
        }
        rest = rest / 10;
    }
    out.push(48u8 + rest as u8);
    let mut k: usize = reversed.len();
    while k > 0
        invariant
            k <= reversed.len(),
            rest < 10,
            decimal(n as nat) == decimal(rest as nat) + reversed@.reverse(),
            out@ == old(out)@ + decimal(rest as nat) + reversed@.reverse().subrange(
                0,
                reversed.len() - k,
            ),
        decreases k,
    {
        k = k - 1;
        out.push(reversed[k]);
        proof {
            let r = reversed@.reverse();
            let m = reversed.len() - k;
            assert(r.subrange(0, m) =~= r.subrange(0, m - 1).push(reversed@[k as int]));
        }
    }
    proof {
        let r = reversed@.reverse();
        assert(r.subrange(0, r.len() as int) =~= r);
    }
}

} // verus!
