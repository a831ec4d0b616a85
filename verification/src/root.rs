//! Integer square roots.

use vstd::prelude::*;

verus! {

/// Whether `r` is the square root of `n` rounded down.
pub open spec fn is_floor_sqrt(r: int, n: int) -> bool {
    0 <= r && r * r <= n < (r + 1) * (r + 1)
}

/// The square root of `n` rounded down, for `n` that is not negative.
pub open spec fn floor_sqrt(n: int) -> int {
    choose|r: int| is_floor_sqrt(r, n)
}

proof fn lemma_square_monotone(a: int, b: int)
    requires
        0 <= a <= b,
    ensures
        a * a <= b * b,
{
    assert(a * a <= b * b) by (nonlinear_arith)
        requires
            0 <= a <= b,
    ;
}

proof fn lemma_floor_sqrt_exists(n: nat) -> (r: int)
    ensures
        is_floor_sqrt(r, n as int),
    decreases n,
{
    if n == 0 {
        assert(is_floor_sqrt(0, 0)) by (nonlinear_arith);
        0
    } else {
        let below = lemma_floor_sqrt_exists((n - 1) as nat);
        let above = below + 1;
        if above * above <= n {
            assert((above + 1) * (above + 1) > above * above) by (nonlinear_arith)
                requires
                    0 <= above,
            ;
            above
        } else {
            below
        }
    }
}

/// Every number that is not negative has exactly one rounded-down square
/// root, and `floor_sqrt` is it.
pub proof fn lemma_floor_sqrt_unique(r: int, n: int)
    requires
        0 <= n,
    ensures
        is_floor_sqrt(floor_sqrt(n), n),
        is_floor_sqrt(r, n) <==> r == floor_sqrt(n),
{
    let witness = lemma_floor_sqrt_exists(n as nat);
    let s = floor_sqrt(n);
    if is_floor_sqrt(r, n) && r != s {
        if r < s {
            lemma_square_monotone(r + 1, s);
        } else {
            lemma_square_monotone(s + 1, r);
        }
    }
}

/// The square root of `n`, rounded down.
pub fn integer_sqrt(n: u128) -> (r: u64)
    ensures
        r == floor_sqrt(n as int),
        is_floor_sqrt(r as int, n as int),
{
    let mut low: u128 = 0;
    let mut high: u128 = 0x1_0000_0000_0000_0000;
    assert(0x1_0000_0000_0000_0000int * 0x1_0000_0000_0000_0000int
        == 0x1_0000_0000_0000_0000_0000_0000_0000_0000int) by (nonlinear_arith);
    while high - low > 1
        invariant
            low < high <= 0x1_0000_0000_0000_0000,
            low * low <= n < high * high,
        decreases high - low,
    {
        let mid: u128 = low + (high - low) / 2;
        assert(mid * mid <= 0xffff_ffff_ffff_ffff * 0xffff_ffff_ffff_ffff) by (nonlinear_arith)
            requires
                0 <= mid <= 0xffff_ffff_ffff_ffff,
        ;
        assert(0xffff_ffff_ffff_ffffint * 0xffff_ffff_ffff_ffffint < 0x1_0000_0000_0000_0000_0000_0000_0000_0000int) by (nonlinear_arith);
        if mid * mid <= n {
            low = mid;
        } else {
            high = mid;
        }
    }
    proof {
        lemma_floor_sqrt_unique(low as int, n as int);
    }
    low as u64
}

} // verus!
