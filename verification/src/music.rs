//! Stepping through the background music tracks.
use vstd::prelude::*;

verus! {

/// The track after track `i` of `n`, wrapping to the first.
pub open spec fn track_after(i: int, n: int) -> int {
    (i + 1) % n
}

/// The track before track `i` of `n`, wrapping to the last.
pub open spec fn track_before(i: int, n: int) -> int {
    if i == 0 {
        n - 1
    } else {
        i - 1
    }
}

/// Index of the next of `n` tracks after track `i`.
pub fn next_track_index(i: usize, n: usize) -> (r: usize)
    requires
        n > 0,
        i < n,
    ensures
        r == track_after(i as int, n as int),
{
    (i + 1) % n
}

/// Index of the previous of `n` tracks before track `i`.
pub fn prev_track_index(i: usize, n: usize) -> (r: usize)
    requires
        n > 0,
    ensures
        r == track_before(i as int, n as int),
{
    if i == 0 {
        n - 1
    } else {
        i - 1
    }
}

/// Stepping forward and back through the tracks returns to the same track,
/// and never leaves the list.
pub proof fn lemma_track_steps(i: int, n: int)
    requires
        0 <= i < n,
    ensures
        0 <= track_after(i, n) < n,
        0 <= track_before(i, n) < n,
        track_before(track_after(i, n), n) == i,
        track_after(track_before(i, n), n) == i,
{
    if i + 1 < n {
        vstd::arithmetic::div_mod::lemma_small_mod((i + 1) as nat, n as nat);
    } else {
        vstd::arithmetic::div_mod::lemma_mod_self_0(n);
    }
    if i == 0 {
        vstd::arithmetic::div_mod::lemma_mod_self_0(n);
    } else {
        vstd::arithmetic::div_mod::lemma_small_mod(i as nat, n as nat);
    }
}

} // verus!
