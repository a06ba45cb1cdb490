use vstd::prelude::*;

verus! {

/// The largest `l <= 100`, counting up from `from`, with `l * l <= n`.
pub open spec fn level_search(n: nat, from: nat) -> nat
    decreases 100 - from,
{
    if from >= 100 || (from + 1) * (from + 1) > n {
        from
    } else {
        level_search(n, from + 1)
    }
}

/// The level that `xp` experience points give: `min(floor(sqrt(xp / 100)), 100)`.
pub open spec fn level_of(xp: nat) -> nat {
    level_search(xp / 100, 0)
}

/// `l` is the integer square root of `n`, capped at 100.
pub open spec fn is_capped_isqrt(n: nat, l: nat) -> bool {
    &&& l <= 100
    &&& l * l <= n
    &&& (l < 100 ==> n < (l + 1) * (l + 1))
}

proof fn lemma_level_search(n: nat, from: nat)
    requires
        from <= 100,
        from * from <= n,
    ensures
        is_capped_isqrt(n, level_search(n, from)),
    decreases 100 - from,
{
    if from >= 100 || (from + 1) * (from + 1) > n {
    } else {
        lemma_level_search(n, from + 1);
    }
}

/// The level of `xp` is `floor(sqrt(xp / 100))` capped at 100, and no other
/// number is.
pub proof fn lemma_level_is_capped_isqrt(xp: nat, l: nat)
    ensures
        is_capped_isqrt(xp / 100, level_of(xp)),
        is_capped_isqrt(xp / 100, l) ==> l == level_of(xp),
{
    lemma_level_search(xp / 100, 0);
    let k = level_of(xp);
    let n = xp / 100;
    if is_capped_isqrt(n, l) && l != k {
        if l < k {
            assert((l + 1) * (l + 1) <= k * k) by (nonlinear_arith)
                requires
                    l + 1 <= k,
            ;
        } else {
            assert((k + 1) * (k + 1) <= l * l) by (nonlinear_arith)
                requires
                    k + 1 <= l,
            ;
        }
    }
}

/// The level that `total_xp` experience points give.
pub fn calculate_level(total_xp: u32) -> (r: u8)
    ensures
        r as nat == level_of(total_xp as nat),
        is_capped_isqrt(total_xp as nat / 100, r as nat),
{
    let n: u32 = total_xp / 100;
    let mut l: u32 = 0;
    // the square of the next candidate, l + 1
    let mut next_sq: u32 = 1;
    while l < 100 && next_sq <= n
        invariant
            l <= 100,
            n == total_xp / 100,
            next_sq as int == (l + 1) * (l + 1),
            level_search(n as nat, l as nat) == level_of(total_xp as nat),
        decreases 100 - l,
    {
        assert((l + 2) * (l + 2) == (l + 1) * (l + 1) + 2 * l + 3) by (nonlinear_arith);
        next_sq = next_sq + 2 * l + 3;
        l = l + 1;
    }
    proof {
        lemma_level_is_capped_isqrt(total_xp as nat, 0);
    }
    l as u8
}

} // verus!
