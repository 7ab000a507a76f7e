//! Rounding and division helpers shared by the extent and tiling arithmetic.

use vstd::prelude::*;
use vstd::arithmetic::power2::pow2;
use vstd::arithmetic::div_mod::{
    lemma_add_mod_noop, lemma_div_nonincreasing, lemma_div_pos_is_pos,
    lemma_fundamental_div_mod, lemma_mod_division_less_than_divisor, lemma_mod_self_0,
    lemma_small_mod,
};

verus! {

/// `x` rounded up to the next multiple of `m` (the identity when `x` is
/// already a multiple).
pub open spec fn round_up(x: int, m: int) -> int {
    if x % m == 0 {
        x
    } else {
        x + m - x % m
    }
}

/// `x / m` rounded towards positive infinity.
pub open spec fn div_ceil(x: int, m: int) -> int {
    if x % m == 0 {
        x / m
    } else {
        x / m + 1
    }
}

pub proof fn lemma_round_up_props(x: int, m: int)
    requires
        0 <= x,
        1 <= m,
    ensures
        x <= round_up(x, m) <= x + m - 1,
        round_up(x, m) % m == 0,
{
    lemma_mod_division_less_than_divisor(x, m);
    if x % m != 0 {
        let y = m - x % m;
        lemma_add_mod_noop(x, y, m);
        lemma_mod_self_0(m);
        lemma_small_mod(y as nat, m as nat);
    }
}

pub proof fn lemma_div_ceil_props(x: int, m: int)
    requires
        0 <= x,
        1 <= m,
    ensures
        div_ceil(x, m) * m == round_up(x, m),
        0 <= div_ceil(x, m),
        1 <= x ==> 1 <= div_ceil(x, m) <= x,
{
    lemma_fundamental_div_mod(x, m);
    lemma_mod_division_less_than_divisor(x, m);
    lemma_div_pos_is_pos(x, m);
    if x % m == 0 {
        assert((x / m) * m == m * (x / m)) by (nonlinear_arith);
    } else {
        assert((x / m + 1) * m == m * (x / m) + m) by (nonlinear_arith);
    }
    if 1 <= x {
        lemma_div_nonincreasing(x, m);
        if x % m != 0 && x / m + 1 > x {
            assert(m * (x / m) >= 2 * x) by (nonlinear_arith)
                requires
                    m >= 2,
                    x / m >= x,
                    x >= 0,
            ;
            assert(false);
        }
    }
}

/// Rounds `x` up to the next multiple of `m`.
pub fn round_up_u64(x: u64, m: u64) -> (r: u64)
    requires
        1 <= m,
        x + m <= u64::MAX,
    ensures
        r == round_up(x as int, m as int),
{
    let rem = x % m;
    if rem == 0 {
        x
    } else {
        x + (m - rem)
    }
}

/// Rounds `x` up to the next multiple of `m`.
pub fn round_up_u32(x: u32, m: u32) -> (r: u32)
    requires
        1 <= m,
        x + m <= u32::MAX,
    ensures
        r == round_up(x as int, m as int),
{
    let rem = x % m;
    if rem == 0 {
        x
    } else {
        x + (m - rem)
    }
}

/// The number of halvings (rounding up) it takes to bring `n` down to 1;
/// equivalently, the exponent of the smallest power of two that is at least
/// `n`.
pub open spec fn ceil_log2(n: int) -> int
    decreases n,
{
    if n <= 1 {
        0
    } else {
        1 + ceil_log2(div_ceil(n, 2))
    }
}

pub proof fn lemma_ceil_log2_nonneg(n: int)
    ensures
        0 <= ceil_log2(n),
    decreases n,
{
    if n > 1 {
        lemma_ceil_log2_nonneg(div_ceil(n, 2));
    }
}

pub proof fn lemma_ceil_log2_le(n: int, k: nat)
    requires
        1 <= n <= pow2(k),
    ensures
        ceil_log2(n) <= k,
    decreases k,
{
    if n > 1 {
        assert(pow2(0) == 1) by {
            vstd::arithmetic::power2::lemma2_to64();
        };
        assert(k >= 1);
        assert(pow2(k) == 2 * pow2((k - 1) as nat)) by {
            vstd::arithmetic::power2::lemma_pow2_unfold(k);
        };
        lemma_ceil_log2_le(div_ceil(n, 2), (k - 1) as nat);
    }
}

/// The exponent of the smallest power of two that is at least `n`.
pub fn ceil_log2_u32(n: u32) -> (r: u32)
    requires
        1 <= n,
    ensures
        r == ceil_log2(n as int),
{
    proof {
        vstd::arithmetic::power2::lemma2_to64();
        lemma_ceil_log2_le(n as int, 32);
        lemma_ceil_log2_nonneg(n as int);
    }
    let mut m: u32 = n;
    let mut r: u32 = 0;
    while m > 1
        invariant
            1 <= m,
            r + ceil_log2(m as int) == ceil_log2(n as int),
            ceil_log2(n as int) <= 32,
            0 <= ceil_log2(m as int),
        decreases m,
    {
        m = m / 2 + m % 2;
        r = r + 1;
        proof {
            lemma_ceil_log2_nonneg(m as int);
        }
    }
    r
}

/// Divides `x` by `m`, rounding up.
pub fn div_ceil_u32(x: u32, m: u32) -> (r: u32)
    requires
        1 <= m,
    ensures
        r == div_ceil(x as int, m as int),
{
    proof {
        lemma_div_ceil_props(x as int, m as int);
        lemma_small_mod(0nat, m as nat);
    }
    let q = x / m;
    if x % m == 0 {
        q
    } else {
        q + 1
    }
}

} // verus!
