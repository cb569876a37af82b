//! The platform fee: a whole percentage of the payment, rounded down.
use vstd::prelude::*;

verus! {

/// The fee on a payment of `total` at `rate` percent: `floor(total * rate / 100)`.
pub open spec fn fee_of(total: int, rate: int) -> int {
    total * rate / 100
}

/// Splitting both factors at 100 gives the fee as a sum of products that
/// each stay small: with `total = 100 q + m` and `rate = 100 a + c`,
/// the fee is `q * rate + m * a + (m * c) / 100`.
proof fn lemma_fee_split(total: nat, rate: nat)
    ensures
        fee_of(total as int, rate as int) == (total / 100) * rate + (total % 100) * (rate / 100)
            + ((total % 100) * (rate % 100)) / 100,
{
    let q = total as int / 100;
    let m = total as int % 100;
    let a = rate as int / 100;
    let c = rate as int % 100;
    assert(total == 100 * q + m);
    assert(rate == 100 * a + c);
    assert(total * rate == (m * c) + (q * rate + m * a) * 100) by (nonlinear_arith)
        requires
            total == 100 * q + m,
            rate == 100 * a + c,
    ;
    vstd::arithmetic::div_mod::lemma_hoist_over_denominator(m * c, q * rate + m * a, 100);
}

/// The platform fee on a payment of `total` at `rate` percent, computed
/// exactly for every pair of inputs. It is `None` only where the fee itself
/// exceeds `u128::MAX`; no intermediate product can overflow.
pub fn platform_fee(total: u128, rate: u128) -> (r: Option<u128>)
    ensures
        match r {
            Some(f) => f == fee_of(total as int, rate as int),
            None => fee_of(total as int, rate as int) > u128::MAX,
        },
{
    proof {
        lemma_fee_split(total as nat, rate as nat);
    }
    let q = total / 100;
    let m = total % 100;
    let a = rate / 100;
    let c = rate % 100;
    assert(m * c < 10000) by (nonlinear_arith)
        requires
            m < 100,
            c < 100,
    ;
    assert(0 <= (m * c) / 100 <= c) by (nonlinear_arith)
        requires
            m < 100,
            c < 100,
    ;
    assert(m * a + c <= rate) by (nonlinear_arith)
        requires
            m < 100,
            a == rate / 100,
            c == rate % 100,
    ;
    let low = m * a + (m * c) / 100;
    match q.checked_mul(rate) {
        None => {
            assert(q * rate <= fee_of(total as int, rate as int)) by (nonlinear_arith)
                requires
                    fee_of(total as int, rate as int) == q * rate + m * a + (m * c) / 100,
                    m * a >= 0,
                    (m * c) / 100 >= 0,
            ;
            None
        },
        Some(high) => high.checked_add(low),
    }
}

} // verus!
