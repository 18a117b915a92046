//! Integer square root with a proved floor characterization. This is the
//! one inexact step of the renderer: the Euclidean norm used by the sky
//! gradient is approximated by the floor square root of an exact integer.

use vstd::prelude::*;

verus! {

/// `r` is the floor of the real square root of `q`.
pub open spec fn is_sqrt_floor(q: int, r: int) -> bool {
    0 <= r && r * r <= q && q < (r + 1) * (r + 1)
}

/// The floor square root of `q`, as a mathematical function.
pub open spec fn sqrt_floor(q: int) -> int {
    choose|r: int| is_sqrt_floor(q, r)
}

/// The floor square root is unique.
pub proof fn lemma_sqrt_floor_unique(q: int, a: int, b: int)
    by (nonlinear_arith)
    requires
        is_sqrt_floor(q, a),
        is_sqrt_floor(q, b),
    ensures
        a == b,
{
}

/// A floor square root exists for every nonnegative integer.
pub proof fn lemma_sqrt_floor_exists(q: nat)
    ensures
        is_sqrt_floor(q as int, sqrt_floor(q as int)),
    decreases q,
{
    if q == 0 {
        assert(is_sqrt_floor(0, 0));
    } else {
        lemma_sqrt_floor_exists((q - 1) as nat);
        let r = sqrt_floor(q - 1);
        assert(is_sqrt_floor(q - 1, r));
        if (r + 1) * (r + 1) <= q {
            assert(is_sqrt_floor(q as int, r + 1)) by (nonlinear_arith)
                requires
                    is_sqrt_floor(q - 1, r),
                    (r + 1) * (r + 1) <= q,
            ;
        } else {
            assert(is_sqrt_floor(q as int, r));
        }
    }
    let w = choose|r: int| is_sqrt_floor(q as int, r);
    assert(is_sqrt_floor(q as int, w));
}

/// The floor square root of a positive integer is positive.
pub proof fn lemma_sqrt_floor_pos(q: int)
    requires
        q >= 1,
    ensures
        sqrt_floor(q) >= 1,
        is_sqrt_floor(q, sqrt_floor(q)),
{
    lemma_sqrt_floor_exists(q as nat);
    let r = sqrt_floor(q);
    assert(r >= 1) by (nonlinear_arith)
        requires
            is_sqrt_floor(q, r),
            q >= 1,
    ;
}

/// Floor square root of an integer below `2^70`, by binary search.
pub fn isqrt(q: u128) -> (r: u128)
    requires
        q < 0x40_0000_0000_0000_0000,
    ensures
        r as int == sqrt_floor(q as int),
        is_sqrt_floor(q as int, r as int),
        r <= 0x10_0000_0000,
{
    let mut lo: u128 = 0;
    let mut hi: u128 = 0x10_0000_0000;
    proof {
        assert(q < hi * hi) by (nonlinear_arith)
            requires
                q < 0x40_0000_0000_0000_0000,
                hi == 0x10_0000_0000,
        ;
    }
    while lo + 1 < hi
        invariant
            0 <= lo < hi <= 0x10_0000_0000,
            lo * lo <= q,
            q < hi * hi,
        decreases hi - lo,
    {
        let mid: u128 = lo + (hi - lo) / 2;
        proof {
            assert(lo < mid < hi);
            assert(mid * mid <= 0x1_0000_0000_0000_0000_0000_0000) by (nonlinear_arith)
                requires
                    0 < mid <= 0x10_0000_0000,
            ;
        }
        if mid * mid <= q {
            lo = mid;
        } else {
            hi = mid;
        }
    }
    proof {
        assert(is_sqrt_floor(q as int, lo as int));
        lemma_sqrt_floor_exists(q as nat);
        lemma_sqrt_floor_unique(q as int, lo as int, sqrt_floor(q as int));
    }
    lo
}

} // verus!
