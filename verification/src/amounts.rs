use vstd::prelude::*;

verus! {

/// Token amounts that cross chains are compared at this many decimal
/// places; a mint with more decimals has its amounts reduced to it.
pub const MAX_DECIMALS: u8 = 8;

/// 10 to the power `n`.
pub open spec fn pow10(n: nat) -> nat
    decreases n,
{
    if n == 0 {
        1
    } else {
        10 * pow10((n - 1) as nat)
    }
}

proof fn lemma_pow10_increases(a: nat, b: nat)
    requires
        a <= b,
    ensures
        pow10(a) <= pow10(b),
    decreases b,
{
    if a < b {
        lemma_pow10_increases(a, (b - 1) as nat);
    }
}

/// 10 to the power `n`, as a machine integer.
pub fn pow10_u64(n: u8) -> (r: u64)
    requires
        n <= 19,
    ensures
        r == pow10(n as nat),
        r >= 1,
{
    let mut i: u8 = 0;
    let mut r: u64 = 1;
    while i < n
        invariant
            i <= n,
            n <= 19,
            r == pow10(i as nat),
        decreases n - i,
    {
        proof {
            lemma_pow10_increases(i as nat, 18);
            assert(pow10(18) == 1_000_000_000_000_000_000) by {
                reveal_with_fuel(pow10, 19);
            }
        }
        r = r * 10;
        i = i + 1;
    }
    proof {
        lemma_pow10_increases(0, n as nat);
    }
    r
}

/// The raw amount a transfer of `amount` units actually moves: everything
/// below the canonical precision is dropped, so that the moved amount and
/// the normalized amount encoded in the message describe the same value.
pub open spec fn spec_truncate(amount: u64, decimals: u8) -> int {
    if decimals <= MAX_DECIMALS {
        amount as int
    } else {
        amount - amount as int % (pow10((decimals - MAX_DECIMALS) as nat) as int)
    }
}

/// The amount reduced to the canonical 8-decimal precision.
pub open spec fn spec_normalize(amount: u64, decimals: u8) -> int {
    if decimals <= MAX_DECIMALS {
        amount as int
    } else {
        amount as int / (pow10((decimals - MAX_DECIMALS) as nat) as int)
    }
}

/// Drop the precision a mint with `decimals` decimals has beyond the
/// canonical 8: the result is the largest multiple of
/// `10^(decimals - 8)` that does not exceed `amount`.
///
/// `decimals <= 27` keeps the divisor within a 64-bit integer.
pub fn truncate_amount(amount: u64, decimals: u8) -> (r: u64)
    requires
        decimals <= 27,
    ensures
        r == spec_truncate(amount, decimals),
        r <= amount,
{
    if decimals <= MAX_DECIMALS {
        amount
    } else {
        let divisor = pow10_u64(decimals - MAX_DECIMALS);
        let r = amount % divisor;
        proof {
            assert(amount as int % (divisor as int) <= amount as int) by (nonlinear_arith)
                requires
                    divisor >= 1,
            ;
        }
        amount - r
    }
}

/// Relies on `wormhole_raw_vaas::support::EncodedAmount::norm`: for a mint
/// with more than 8 decimals the amount is divided by `10^(decimals - 8)`
/// (rounding down), otherwise it is returned unchanged. The divisor is
/// computed exactly as long as it fits 256 bits, which `decimals <= 27`
/// guarantees; the result never exceeds `amount`, so it fits back into 64
/// bits.
#[verifier::external_body]
pub(crate) fn normalize_amount(amount: u64, decimals: u8) -> (r: u64)
    requires
        decimals <= 27,
    ensures
        r == spec_normalize(amount, decimals),
{
    let norm = wormhole_raw_vaas::support::EncodedAmount::norm(
        ruint::aliases::U256::from(amount),
        decimals,
    );
    u64::try_from(norm.0).unwrap()
}

/// Law: the truncated amount and the normalized amount describe the same
/// quantity — truncation is exactly normalization followed by scaling back
/// up, so no value is moved into custody that the message does not report.
pub proof fn lemma_truncate_matches_normalize(amount: u64, decimals: u8)
    ensures
        spec_truncate(amount, decimals) == spec_normalize(amount, decimals) * (
        if decimals <= MAX_DECIMALS {
            1int
        } else {
            pow10((decimals - MAX_DECIMALS) as nat) as int
        }),
{
    if decimals > MAX_DECIMALS {
        let d = pow10((decimals - MAX_DECIMALS) as nat) as int;
        lemma_pow10_increases(0, (decimals - MAX_DECIMALS) as nat);
        assert(amount as int / d * d == amount - amount as int % d) by (nonlinear_arith)
            requires
                d >= 1,
        ;
    }
}

} // verus!
