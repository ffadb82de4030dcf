use vstd::prelude::*;

verus! {

/// Ten to the power `d`.
pub open spec fn pow10(d: nat) -> nat
    decreases d,
{
    if d == 0 {
        1
    } else {
        10 * pow10((d - 1) as nat)
    }
}

/// An amount in raw units: the human amount times ten to the number of
/// decimals, where that product fits in `u64`.
pub open spec fn raw_units(amount: u64, decimals: u8) -> Option<u64> {
    if amount * pow10(decimals as nat) <= u64::MAX {
        Some((amount * pow10(decimals as nat)) as u64)
    } else {
        None
    }
}

/// Powers of ten are positive and grow with the exponent.
pub proof fn lemma_pow10_monotonic(a: nat, b: nat)
    requires
        a <= b,
    ensures
        1 <= pow10(a) <= pow10(b),
    decreases b,
{
    if a == 0 {
        if b > 0 {
            lemma_pow10_monotonic(0, (b - 1) as nat);
        }
    } else {
        lemma_pow10_monotonic((a - 1) as nat, (b - 1) as nat);
    }
}

/// Scales a human amount to raw units, or reports that the product leaves `u64`.
pub fn to_raw_units(amount: u64, decimals: u8) -> (r: Option<u64>)
    ensures
        r == raw_units(amount, decimals),
{
    if amount == 0 {
        assert(amount * pow10(decimals as nat) == 0) by (nonlinear_arith)
            requires
                amount == 0,
        ;
        return Some(0);
    }
    let mut acc: u64 = amount;
    let mut i: u8 = 0;
    assert(amount * pow10(0) == amount) by (nonlinear_arith)
        requires
            pow10(0) == 1,
    ;
    while i < decimals
        invariant
            i <= decimals,
            amount >= 1,
            acc == amount * pow10(i as nat),
        decreases decimals - i,
    {
        let ghost step = pow10(i as nat);
        let ghost full = pow10(decimals as nat);
        proof {
            lemma_pow10_monotonic((i + 1) as nat, decimals as nat);
            assert(pow10((i + 1) as nat) == 10 * step);
        }
        match acc.checked_mul(10) {
            Some(next) => {
                assert(next == amount * (10 * step)) by (nonlinear_arith)
                    requires
                        next == acc * 10,
                        acc == amount * step,
                ;
                acc = next;
            },
            None => {
                assert(amount * full > u64::MAX) by (nonlinear_arith)
                    requires
                        acc * 10 > u64::MAX,
                        acc == amount * step,
                        10 * step <= full,
                        amount >= 1,
                ;
                return None;
            },
        }
        i += 1;
    }
    Some(acc)
}

} // verus!
