//! Moving a selection through a list of entries: stepping with wrap-around, paging with
//! clamping, and the offsets of entries stacked one after another.

use vstd::prelude::*;
use vstd::arithmetic::div_mod::{
    lemma_fundamental_div_mod_converse,
    lemma_add_mod_noop_right,
    lemma_small_mod,
    lemma_mod_self_0,
};

verus! {

/// The entry before `s` among `n`, wrapping from the first to the last.
pub open spec fn step_back(s: int, n: int) -> int {
    (s - 1) % n
}

/// The entry after `s` among `n`, wrapping from the last to the first.
pub open spec fn step_forward(s: int, n: int) -> int {
    (s + 1) % n
}

/// `i` held within the indices of `n` entries.
pub open spec fn clamp_index(i: int, n: int) -> int {
    if i > n - 1 {
        n - 1
    } else if i < 0 {
        0
    } else {
        i
    }
}

/// How far entry `i` lies from the first when entries of the given sizes are stacked with
/// `gap` between each and the next.
pub open spec fn stack_offset(sizes: Seq<u32>, gap: int, i: int) -> int
    decreases i,
{
    if i <= 0 {
        0
    } else {
        stack_offset(sizes, gap, i - 1) + sizes[i - 1] + gap
    }
}

/// Stacked offsets grow with the index when the gap is not negative.
pub proof fn lemma_stack_offset_monotone(sizes: Seq<u32>, gap: int, i: int, j: int)
    requires
        0 <= gap,
        0 <= i <= j,
    ensures
        0 <= stack_offset(sizes, gap, i) <= stack_offset(sizes, gap, j),
    decreases j,
{
    if j > i {
        lemma_stack_offset_monotone(sizes, gap, i, j - 1);
    } else if i > 0 {
        lemma_stack_offset_monotone(sizes, gap, i - 1, i - 1);
    }
}

/// The entry before `s` among `n > 0`, wrapping around.
pub fn wrap_back(s: usize, n: usize) -> (r: usize)
    requires
        n > 0,
    ensures
        r == step_back(s as int, n as int),
        r < n,
{
    if s == 0 {
        proof {
            lemma_fundamental_div_mod_converse(-1, n as int, -1, n - 1);
        }
        n - 1
    } else {
        (s - 1) % n
    }
}

/// The entry after `s` among `n > 0`, wrapping around.
pub fn wrap_forward(s: usize, n: usize) -> (r: usize)
    requires
        n > 0,
    ensures
        r == step_forward(s as int, n as int),
        r < n,
{
    let t = s % n;
    proof {
        lemma_add_mod_noop_right(1, s as int, n as int);
    }
    if t + 1 == n {
        proof {
            lemma_mod_self_0(n as int);
        }
        0
    } else {
        proof {
            lemma_small_mod((t + 1) as nat, n as nat);
        }
        t + 1
    }
}

/// `s` moved back by `k` entries among `n > 0`, stopping at the first.
pub fn page_back(s: usize, k: usize, n: usize) -> (r: usize)
    requires
        n > 0,
    ensures
        r == clamp_index(s - k, n as int),
        r < n,
{
    if s < k {
        0
    } else if s - k > n - 1 {
        n - 1
    } else {
        s - k
    }
}

/// `s` moved forward by `k` entries among `n > 0`, stopping at the last.
pub fn page_forward(s: usize, k: usize, n: usize) -> (r: usize)
    requires
        n > 0,
    ensures
        r == clamp_index(s + k, n as int),
        r < n,
{
    if s >= n - 1 || k >= n - 1 - s {
        n - 1
    } else {
        s + k
    }
}

/// `i` held within the indices of `n > 0` entries.
pub fn clamp_to_len(i: usize, n: usize) -> (r: usize)
    requires
        n > 0,
    ensures
        r == clamp_index(i as int, n as int),
        r < n,
{
    if i > n - 1 {
        n - 1
    } else {
        i
    }
}

/// Stepping forward undoes stepping back, and stepping back undoes stepping forward.
pub proof fn lemma_step_roundtrip(s: int, n: int)
    requires
        0 <= s < n,
    ensures
        step_forward(step_back(s, n), n) == s,
        step_back(step_forward(s, n), n) == s,
{
    if s == 0 {
        lemma_fundamental_div_mod_converse(-1, n, -1, n - 1);
        lemma_mod_self_0(n);
    } else {
        lemma_small_mod((s - 1) as nat, n as nat);
        lemma_small_mod(s as nat, n as nat);
    }
    if s + 1 == n {
        lemma_mod_self_0(n);
        lemma_fundamental_div_mod_converse(-1, n, -1, n - 1);
    } else {
        lemma_small_mod((s + 1) as nat, n as nat);
        lemma_small_mod(s as nat, n as nat);
    }
}

} // verus!
