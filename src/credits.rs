//! Vote weight: the integer square root of a token balance.
use vstd::prelude::*;

verus! {

/// `r` is the integer square root of `n`: the largest `r` with `r * r <= n`.
pub open spec fn is_floor_sqrt(n: nat, r: nat) -> bool {
    r * r <= n && n < (r + 1) * (r + 1)
}

/// The integer square root of `n`.
pub open spec fn floor_sqrt(n: nat) -> nat {
    choose|r: nat| is_floor_sqrt(n, r)
}

/// At most one number is the integer square root of `n`.
pub proof fn lemma_floor_sqrt_unique(n: nat, r: nat, s: nat)
    requires
        is_floor_sqrt(n, r),
        is_floor_sqrt(n, s),
    ensures
        r == s,
{
    if r < s {
        assert((r + 1) * (r + 1) <= s * s) by (nonlinear_arith)
            requires r + 1 <= s;
    } else if s < r {
        assert((s + 1) * (s + 1) <= r * r) by (nonlinear_arith)
            requires s + 1 <= r;
    }
}

/// Exclusive upper bound on the square root of any `u64`.
pub const SQRT_BOUND: u64 = 0x1_0000_0000;

/// The number of vote credits that a token balance buys: `floor(sqrt(balance))`,
/// found by binary search on integers.
pub fn vote_credits(balance: u64) -> (r: u64)
    ensures
        is_floor_sqrt(balance as nat, r as nat),
        r as nat == floor_sqrt(balance as nat),
{
    let mut lo: u64 = 0;
    let mut hi: u64 = SQRT_BOUND;
    assert(balance < hi * hi) by (nonlinear_arith)
        requires hi == 0x1_0000_0000u64, balance <= u64::MAX;
    while hi - lo > 1
        invariant
            lo < hi <= SQRT_BOUND,
            lo * lo <= balance,
            balance < hi * hi,
        decreases hi - lo,
    {
        let mid: u64 = lo + (hi - lo) / 2;
        assert(mid * mid < 0x1_0000_0000_0000_0000) by (nonlinear_arith)
            requires mid < 0x1_0000_0000int;
        if mid * mid <= balance {
            lo = mid;
        } else {
            hi = mid;
        }
    }
    assert(hi == lo + 1);
    proof {
        let w = choose|w: nat| is_floor_sqrt(balance as nat, w);
        assert(is_floor_sqrt(balance as nat, lo as nat));
        lemma_floor_sqrt_unique(balance as nat, lo as nat, w);
    }
    lo
}

} // verus!
