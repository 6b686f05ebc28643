//! Counting round the edge of a grid: facts about remainders.

use vstd::prelude::*;

verus! {

/// A remainder lies below the modulus, and a number below the modulus is
/// its own remainder.
pub proof fn lemma_remainder_in_range(a: int, m: int)
    requires
        m > 0,
    ensures
        0 <= a % m < m,
        0 <= a < m ==> a % m == a,
{
    vstd::arithmetic::div_mod::lemma_mod_bound(a, m);
    if 0 <= a < m {
        vstd::arithmetic::div_mod::lemma_small_mod(a as nat, m as nat);
    }
}

/// Going on by `k` from a remainder ends where going on by `k` from the
/// number itself ends.
pub proof fn lemma_remainder_moved(a: int, k: int, m: int)
    requires
        m > 0,
    ensures
        ((a % m) + k) % m == (a + k) % m,
{
    vstd::arithmetic::div_mod::lemma_add_mod_noop_right(k, a, m);
}

/// The place `x` lies `k` steps after the place `s`, counting round, exactly
/// when `x` is where `s + k` ends up.
pub proof fn lemma_steps_between(x: int, s: int, k: int, m: int)
    requires
        m > 0,
        0 <= x < m,
        0 <= k < m,
    ensures
        ((x - s) % m == k) <==> (x == (s + k) % m),
{
    lemma_remainder_in_range(x, m);
    lemma_remainder_in_range(k, m);
    if (x - s) % m == k {
        vstd::arithmetic::div_mod::lemma_add_mod_noop_right(s, x - s, m);
        assert((s + (x - s)) % m == x % m);
    }
    if x == (s + k) % m {
        vstd::arithmetic::div_mod::lemma_add_mod_noop_right(-s, s + k, m);
        assert((-s + (s + k)) % m == k % m);
        assert(-s + x == x - s);
    }
}

/// Places with the same remainder lie the same number of steps before any
/// place, counting round.
pub proof fn lemma_steps_from_same_place(a: int, b: int, x: int, m: int)
    requires
        m > 0,
        a % m == b % m,
    ensures
        (x - a) % m == (x - b) % m,
{
    vstd::arithmetic::div_mod::lemma_sub_mod_noop_right(x, a, m);
    vstd::arithmetic::div_mod::lemma_sub_mod_noop_right(x, b, m);
}

/// Two different numbers of steps below the modulus end at different places.
pub proof fn lemma_steps_differ(s: int, a: int, b: int, m: int)
    requires
        m > 0,
        0 <= a < b < m,
    ensures
        (s + a) % m != (s + b) % m,
{
    let x = (s + a) % m;
    lemma_remainder_in_range(s + a, m);
    lemma_steps_between(x, s, a, m);
    lemma_steps_between(x, s, b, m);
}

} // verus!
