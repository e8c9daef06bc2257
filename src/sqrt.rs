use vstd::prelude::*;

verus! {

/// `r` is the integer square root of `v`: the largest `r` with `r * r <= v`.
pub open spec fn is_floor_sqrt(v: int, r: int) -> bool {
    0 <= r && r * r <= v && v < (r + 1) * (r + 1)
}

/// The largest `r <= k` with `r * r <= v` (or zero).
pub open spec fn sqrt_at_most(v: nat, k: nat) -> nat
    decreases k,
{
    if k == 0 || k * k <= v {
        k
    } else {
        sqrt_at_most(v, (k - 1) as nat)
    }
}

/// The integer square root of `v`, rounded down.
pub open spec fn floor_sqrt(v: nat) -> nat {
    sqrt_at_most(v, v)
}

proof fn lemma_sqrt_at_most(v: nat, k: nat)
    requires
        v < (k + 1) * (k + 1),
    ensures
        is_floor_sqrt(v as int, sqrt_at_most(v, k) as int),
    decreases k,
{
    if k == 0 || k * k <= v {
        if k == 0 {
            assert(k * k == 0) by (nonlinear_arith)
                requires
                    k == 0,
            ;
        }
    } else {
        let j = (k - 1) as nat;
        assert((j + 1) * (j + 1) == k * k);
        lemma_sqrt_at_most(v, j);
    }
}

/// Two integer square roots of the same value coincide.
pub proof fn lemma_floor_sqrt_unique(v: int, r: int, s: int)
    requires
        is_floor_sqrt(v, r),
        is_floor_sqrt(v, s),
    ensures
        r == s,
{
    if r < s {
        assert((r + 1) * (r + 1) <= s * s) by (nonlinear_arith)
            requires
                0 <= r + 1 <= s,
        ;
    } else if s < r {
        assert((s + 1) * (s + 1) <= r * r) by (nonlinear_arith)
            requires
                0 <= s + 1 <= r,
        ;
    }
}

/// `floor_sqrt(v)` is the integer square root of `v`, and the only one.
pub proof fn lemma_floor_sqrt(v: nat)
    ensures
        is_floor_sqrt(v as int, floor_sqrt(v) as int),
        forall|r: int| is_floor_sqrt(v as int, r) ==> r == floor_sqrt(v),
{
    assert(v < (v + 1) * (v + 1)) by (nonlinear_arith);
    lemma_sqrt_at_most(v, v);
    assert forall|r: int| is_floor_sqrt(v as int, r) implies r == floor_sqrt(v) by {
        lemma_floor_sqrt_unique(v as int, r, floor_sqrt(v) as int);
    }
}

/// The square root of a perfect square is exact, and adding one to a
/// nonzero square does not move it.
pub proof fn lemma_floor_sqrt_of_square(n: nat)
    ensures
        floor_sqrt(n * n) == n,
        n >= 1 ==> floor_sqrt(n * n + 1) == n,
{
    let sq = n * n;
    assert(is_floor_sqrt(sq as int, n as int)) by (nonlinear_arith)
        requires
            sq == n * n,
    ;
    lemma_floor_sqrt(sq);
    if n >= 1 {
        assert(is_floor_sqrt(sq + 1 as int, n as int)) by (nonlinear_arith)
            requires
                sq == n * n,
                n >= 1,
        ;
        lemma_floor_sqrt((sq + 1) as nat);
    }
}

/// One Newton step never falls below the square root.
proof fn lemma_newton_step_above(v: int, x: int, s: int)
    requires
        is_floor_sqrt(v, s),
        x >= 1,
    ensures
        (x + v / x) / 2 >= s,
{
    let q = v / x;
    let m = v % x;
    assert(v == x * q + m && 0 <= m < x) by {
        vstd::arithmetic::div_mod::lemma_fundamental_div_mod(v, x);
    }
    if x + q < 2 * s {
        assert(false) by (nonlinear_arith)
            requires
                v == x * q + m,
                0 <= m < x,
                x + q < 2 * s,
                s * s <= v,
                x >= 1,
        ;
    }
}

/// A Newton step that does not descend from above the root is only
/// possible at the root itself.
proof fn lemma_newton_stop(v: int, x: int, s: int)
    requires
        is_floor_sqrt(v, s),
        x >= s,
        x >= 1,
        (x + v / x) / 2 >= x,
    ensures
        x == s,
{
    if x > s {
        let q = v / x;
        let m = v % x;
        assert(v == x * q + m && 0 <= m < x) by {
            vstd::arithmetic::div_mod::lemma_fundamental_div_mod(v, x);
        }
        assert(q < x) by (nonlinear_arith)
            requires
                v == x * q + m,
                0 <= m,
                x >= s + 1,
                s >= 0,
                v < (s + 1) * (s + 1),
        ;
    }
}

/// Above the root, the quotient `v / x` stays within two of the root.
proof fn lemma_quotient_bound(v: int, x: int, s: int)
    requires
        is_floor_sqrt(v, s),
        x >= s,
        s >= 1,
    ensures
        v / x <= s + 2,
{
    let q = v / x;
    let m = v % x;
    assert(v == x * q + m && 0 <= m < x) by {
        vstd::arithmetic::div_mod::lemma_fundamental_div_mod(v, x);
    }
    if q > s + 2 {
        assert(false) by (nonlinear_arith)
            requires
                v == x * q + m,
                0 <= m,
                q >= s + 3,
                x >= s,
                s >= 1,
                v < (s + 1) * (s + 1),
        ;
    }
}

/// Integer square root by Newton's method: the largest `r` with
/// `r * r <= value`.
pub fn isqrt(value: u128) -> (r: u64)
    ensures
        r == floor_sqrt(value as nat),
        is_floor_sqrt(value as int, r as int),
{
    let ghost v = value as int;
    let ghost s = floor_sqrt(value as nat) as int;
    proof {
        lemma_floor_sqrt(value as nat);
    }
    if value < 2 {
        proof {
            assert(is_floor_sqrt(v, v)) by (nonlinear_arith)
                requires
                    0 <= v < 2,
            ;
        }
        return value as u64;
    }
    proof {
        assert(1 <= s <= v / 2) by (nonlinear_arith)
            requires
                is_floor_sqrt(v, s),
                v >= 2,
        ;
        assert(s < 0x1_0000_0000_0000_0000) by (nonlinear_arith)
            requires
                is_floor_sqrt(v, s),
                v < 0x1_0000_0000_0000_0000_0000_0000_0000_0000,
        ;
        assert(v / v == 1) by (nonlinear_arith)
            requires
                v >= 2,
        ;
    }
    let mut x: u128 = value;
    let mut y: u128 = value / 2 + value % 2;
    while y < x
        invariant
            2 <= v == value,
            is_floor_sqrt(v, s),
            1 <= s <= v / 2,
            s < 0x1_0000_0000_0000_0000,
            s <= x <= value,
            y == (x as int + v / (x as int)) / 2,
            y <= v / 2 + 1,
        decreases x,
    {
        proof {
            lemma_newton_step_above(v, x as int, s);
        }
        x = y;
        proof {
            lemma_quotient_bound(v, x as int, s);
        }
        y = (x + value / x) / 2;
        proof {
            if y >= x {
                lemma_newton_stop(v, x as int, s);
            }
        }
    }
    proof {
        lemma_newton_stop(v, x as int, s);
    }
    x as u64
}

} // verus!
