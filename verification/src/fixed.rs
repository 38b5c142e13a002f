//! Whole-number arithmetic behind the fixed-point quantities.

use vstd::prelude::*;

verus! {

/// One world unit.  Lengths, speeds and accelerations are counted in
/// thousandths of it, and so are the factors that scale them.
pub const UNIT: i32 = 1000;

/// The quotient of `a` by a positive `b`, rounded toward zero.
pub open spec fn div_toward_zero(a: int, b: int) -> int {
    if a >= 0 {
        a / b
    } else {
        -((-a) / b)
    }
}

/// `v` moved to the nearest value that an `i32` holds.
pub open spec fn clamp_i32(v: int) -> int {
    if v < i32::MIN {
        i32::MIN as int
    } else if v > i32::MAX {
        i32::MAX as int
    } else {
        v
    }
}

/// The least `r` with `r * r >= n`: the square root of `n`, rounded up.
pub open spec fn ceil_sqrt(n: nat) -> nat
    decreases n,
{
    if n == 0 {
        0
    } else {
        let r = ceil_sqrt((n - 1) as nat);
        if r * r >= n {
            r
        } else {
            r + 1
        }
    }
}

/// `ceil_sqrt(n)` squared reaches `n`, and the number before it does not.
pub proof fn lemma_ceil_sqrt(n: nat)
    ensures
        ceil_sqrt(n) * ceil_sqrt(n) >= n,
        ceil_sqrt(n) > 0 ==> (ceil_sqrt(n) - 1) * (ceil_sqrt(n) - 1) < n,
        n > 0 ==> ceil_sqrt(n) > 0,
    decreases n,
{
    if n > 0 {
        let m = (n - 1) as nat;
        lemma_ceil_sqrt(m);
        let r = ceil_sqrt(m);
        if r * r >= n {
            assert(r > 0) by (nonlinear_arith)
                requires
                    r * r >= n,
                    n > 0,
            ;
        } else {
            assert(r * r == m);
            assert((r + 1) * (r + 1) >= n) by (nonlinear_arith)
                requires
                    r * r == n - 1,
            ;
        }
    }
}

/// A root that is known by its two bounds is the one `ceil_sqrt` names.
pub proof fn lemma_ceil_sqrt_unique(n: nat, r: nat)
    requires
        r * r >= n,
        r == 0 || (r - 1) * (r - 1) < n,
    ensures
        r == ceil_sqrt(n),
{
    lemma_ceil_sqrt(n);
    let c = ceil_sqrt(n);
    if c < r {
        assert(c * c <= (r - 1) * (r - 1)) by (nonlinear_arith)
            requires
                0 <= c <= r - 1,
        ;
    } else if r < c {
        assert(r * r <= (c - 1) * (c - 1)) by (nonlinear_arith)
            requires
                0 <= r <= c - 1,
        ;
    }
}

/// `a / b` rounded toward zero, for a positive divisor.
pub fn divide_toward_zero(a: i128, b: i128) -> (q: i128)
    requires
        b > 0,
    ensures
        q == div_toward_zero(a as int, b as int),
{
    if a >= 0 {
        a / b
    } else if a == i128::MIN {
        // The magnitude of the least value does not fit; split one divisor off.
        let rest: i128 = a + b;
        let q: i128 = (-rest) / b;
        proof {
            let m = -(a as int);
            assert(m == (m - b) + b);
            vstd::arithmetic::div_mod::lemma_div_plus_one(m - b, b as int);
        }
        -q - 1
    } else {
        -((-a) / b)
    }
}

/// The value of `v` kept inside the range of an `i32`.
pub fn saturate_i32(v: i128) -> (r: i32)
    ensures
        r == clamp_i32(v as int),
{
    if v < i32::MIN as i128 {
        i32::MIN
    } else if v > i32::MAX as i128 {
        i32::MAX
    } else {
        v as i32
    }
}

/// The square root of `n`, rounded up.
pub fn ceil_sqrt_u128(n: u128) -> (r: u128)
    ensures
        r == ceil_sqrt(n as nat),
        r <= 0x1_0000_0000_0000_0000,
{
    let mut lo: u128 = 0;
    let mut hi: u128 = 0x1_0000_0000_0000_0000;
    assert(hi * hi > n) by (nonlinear_arith)
        requires
            hi == 0x1_0000_0000_0000_0000,
            n <= u128::MAX,
    ;
    // lo * lo <= n < hi * hi throughout.
    while hi - lo > 1
        invariant
            lo < hi <= 0x1_0000_0000_0000_0000,
            lo * lo <= n,
            hi * hi > n,
        decreases hi - lo,
    {
        let mid: u128 = lo + (hi - lo) / 2;
        assert(mid * mid <= 0xffff_ffff_ffff_ffff * 0xffff_ffff_ffff_ffff) by (nonlinear_arith)
            requires
                mid <= 0xffff_ffff_ffff_ffff,
        ;
        if mid * mid <= n {
            lo = mid;
        } else {
            hi = mid;
        }
    }
    assert(lo * lo <= 0xffff_ffff_ffff_ffff * 0xffff_ffff_ffff_ffff) by (nonlinear_arith)
        requires
            lo <= 0xffff_ffff_ffff_ffff,
    ;
    let r: u128 = if lo * lo == n { lo } else { lo + 1 };
    proof {
        if lo * lo != n {
            assert((lo + 1) * (lo + 1) >= n);
        } else if lo > 0 {
            assert((lo - 1) * (lo - 1) < lo * lo) by (nonlinear_arith)
                requires
                    lo > 0,
            ;
        }
        lemma_ceil_sqrt_unique(n as nat, r as nat);
    }
    r
}

} // verus!
