use vstd::prelude::*;

verus! {

/// Basis points in a whole: a fee rate of `BPS_DENOMINATOR` takes everything.
pub const BPS_DENOMINATOR: u32 = 10000;

/// The shortest interval, in seconds, that a plan may have.
pub const MIN_INTERVAL: u64 = 3600;

/// The protocol fee on `amount` at `fee_bps` basis points, rounded down.
pub open spec fn fee_of(amount: int, fee_bps: int) -> int {
    amount * fee_bps / (BPS_DENOMINATOR as int)
}

pub proof fn lemma_fee_split(amount: int, fee_bps: int)
    requires
        amount >= 0,
        0 <= fee_bps <= 10000,
    ensures
        fee_of(amount, fee_bps) == (amount / 10000) * fee_bps + (amount % 10000) * fee_bps / 10000,
        0 <= fee_of(amount, fee_bps) <= amount,
{
    let q = amount / 10000;
    let r = amount % 10000;
    assert(amount == 10000 * q + r) by (nonlinear_arith)
        requires q == amount / 10000, r == amount % 10000;
    assert(amount * fee_bps == (q * fee_bps) * 10000 + r * fee_bps) by (nonlinear_arith)
        requires amount == 10000 * q + r;
    assert(((q * fee_bps) * 10000 + r * fee_bps) / 10000 == q * fee_bps + r * fee_bps / 10000) by (nonlinear_arith)
        requires r >= 0, fee_bps >= 0;
    assert(0 <= amount * fee_bps <= amount * 10000) by (nonlinear_arith)
        requires amount >= 0, 0 <= fee_bps <= 10000;
    assert(amount * fee_bps / 10000 <= amount) by (nonlinear_arith)
        requires 0 <= amount * fee_bps <= amount * 10000;
    assert(0 <= amount * fee_bps / 10000) by (nonlinear_arith)
        requires 0 <= amount * fee_bps;
}

/// The fee that `fee_bps` basis points take from `amount`, rounded down.
/// It is computed without an intermediate product, so it never overflows.
pub fn compute_fee(amount: i128, fee_bps: u32) -> (r: i128)
    requires
        amount >= 0,
        fee_bps <= BPS_DENOMINATOR,
    ensures
        r == fee_of(amount as int, fee_bps as int),
        0 <= r <= amount,
{
    proof {
        lemma_fee_split(amount as int, fee_bps as int);
    }
    let q: i128 = amount / 10000;
    let r: i128 = amount % 10000;
    assert(q * fee_bps <= amount) by (nonlinear_arith)
        requires q == amount / 10000, 0 <= fee_bps <= 10000, amount >= 0;
    assert(0 <= r * fee_bps <= 10000 * 10000) by (nonlinear_arith)
        requires 0 <= r < 10000, 0 <= fee_bps <= 10000;
    assert(0 <= q * fee_bps) by (nonlinear_arith)
        requires q >= 0, fee_bps >= 0;
    q * (fee_bps as i128) + r * (fee_bps as i128) / 10000
}

} // verus!
