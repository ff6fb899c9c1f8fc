//! Saturating fixed-point helpers and a verified integer square root.
use vstd::prelude::*;

verus! {

/// `a + b`, stopping at `u32::MAX` instead of wrapping.
pub open spec fn sat_add_u32(a: u32, b: u32) -> u32 {
    if a + b > u32::MAX { u32::MAX } else { (a + b) as u32 }
}

/// `a - b`, stopping at zero instead of wrapping.
pub open spec fn sat_sub_u32(a: u32, b: u32) -> u32 {
    if b >= a { 0u32 } else { (a - b) as u32 }
}

/// `a + b`, stopping at `u64::MAX` instead of wrapping.
pub open spec fn sat_add_u64(a: u64, b: u64) -> u64 {
    if a + b > u64::MAX { u64::MAX } else { (a + b) as u64 }
}

/// A wide accumulator narrowed to `u32`, stopping at `u32::MAX`.
pub open spec fn clamp_u32(v: u64) -> u32 {
    if v > u32::MAX { u32::MAX } else { v as u32 }
}

/// Absolute value of a mathematical integer.
pub open spec fn iabs(v: int) -> int {
    if v < 0 { -v } else { v }
}

/// Executable counterpart of `clamp_u32`.
pub fn clamp_to_u32(v: u64) -> (r: u32)
    ensures
        r == clamp_u32(v),
{
    if v > 0xFFFF_FFFFu64 { u32::MAX } else { v as u32 }
}

/// The largest `r` with `r * r <= n`.
pub open spec fn sqrt_floor(n: nat) -> nat
    decreases n,
{
    if n == 0 {
        0
    } else {
        let r = sqrt_floor((n - 1) as nat);
        if (r + 1) * (r + 1) <= n { r + 1 } else { r }
    }
}

/// `sqrt_floor(n)` is bracketed by the two neighbouring squares.
pub proof fn lemma_sqrt_floor_bounds(n: nat)
    ensures
        sqrt_floor(n) * sqrt_floor(n) <= n,
        n < (sqrt_floor(n) + 1) * (sqrt_floor(n) + 1),
    decreases n,
{
    if n == 0 {
        let s = sqrt_floor(n);
        assert(s == 0);
        assert(n < (s + 1) * (s + 1)) by (nonlinear_arith)
            requires n == 0 && s == 0;
    } else {
        lemma_sqrt_floor_bounds((n - 1) as nat);
        let r = sqrt_floor((n - 1) as nat);
        if (r + 1) * (r + 1) <= n {
            assert(sqrt_floor(n) == r + 1);
            assert((r + 1) * (r + 1) < (r + 2) * (r + 2)) by (nonlinear_arith)
                requires r >= 0;
            assert(n - 1 < (r + 1) * (r + 1));
            assert(n < (r + 2) * (r + 2));
        } else {
            assert(sqrt_floor(n) == r);
            assert(r * r <= n - 1 <= n);
            assert(n < (r + 1) * (r + 1));
        }
    }
}

/// The bracket property pins the square root down uniquely.
pub proof fn lemma_sqrt_floor_unique(n: nat, r: nat)
    requires
        r * r <= n,
        n < (r + 1) * (r + 1),
    ensures
        r == sqrt_floor(n),
{
    lemma_sqrt_floor_bounds(n);
    let s = sqrt_floor(n);
    if r < s {
        assert((r + 1) * (r + 1) <= s * s) by (nonlinear_arith)
            requires r + 1 <= s;
    }
    if s < r {
        assert((s + 1) * (s + 1) <= r * r) by (nonlinear_arith)
            requires s + 1 <= r;
    }
}

/// Integer square root by bisection.
pub fn isqrt64(n: u64) -> (r: u64)
    ensures
        r as nat == sqrt_floor(n as nat),
        r * r <= n,
{
    let mut lo: u64 = 0;
    let mut hi: u64 = 4_294_967_296;
    while hi - lo > 1
        invariant
            lo < hi <= 4_294_967_296,
            (lo as int) * (lo as int) <= n as int,
            (n as int) < (hi as int) * (hi as int),
        decreases hi - lo,
    {
        let mid: u64 = lo + (hi - lo) / 2;
        proof {
            assert((mid as int) * (mid as int) <= 4_294_967_295int * 4_294_967_295int)
                by (nonlinear_arith)
                requires 0 <= mid as int <= 4_294_967_295int;
        }
        if mid * mid <= n {
            lo = mid;
        } else {
            hi = mid;
        }
    }
    proof {
        lemma_sqrt_floor_unique(n as nat, lo as nat);
    }
    lo
}

} // verus!
