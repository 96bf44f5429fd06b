//! When the projection bases are recomputed.
//!
//! The step counter is incremented at the start of every gradient projection,
//! so call number `n` (counting from 1) sees the counter at `n`. Bases are
//! recomputed when none exist yet, and otherwise whenever the counter is a
//! multiple of the update interval.
use vstd::prelude::*;
use vstd::arithmetic::div_mod::{
    lemma_fundamental_div_mod,
    lemma_mod_multiples_vanish,
    lemma_mod_self_0,
    lemma_mod_sub_multiples_vanish,
    lemma_small_mod,
};

verus! {

/// Whether the call that moves the counter to `step` recomputes the bases.
pub open spec fn refresh_due(step: nat, interval: nat, established: bool) -> bool {
    !established || step % interval == 0
}

/// Whether call number `n` of a run (counting from 1) recomputes the bases.
/// Only the first call finds no bases.
pub open spec fn refreshes_on_call(n: nat, interval: nat) -> bool {
    refresh_due(n, interval, n > 1)
}

/// Executable form of `refresh_due`.
pub fn is_refresh_due(step: u64, interval: u64, established: bool) -> (r: bool)
    requires
        interval > 0,
    ensures
        r == refresh_due(step as nat, interval as nat, established),
{
    !established || step % interval == 0
}

/// The first call of a run always recomputes the bases, whatever the interval.
pub proof fn lemma_first_call_refreshes(interval: nat)
    requires
        interval > 0,
    ensures
        refreshes_on_call(1, interval),
{
}

/// Past the first call, whether a call recomputes the bases repeats with
/// period `interval`.
pub proof fn lemma_cadence_periodic(n: nat, interval: nat)
    requires
        interval > 0,
        n >= 2,
    ensures
        refreshes_on_call(n + interval, interval) == refreshes_on_call(n, interval),
{
    lemma_mod_multiples_vanish(1, n as int, interval as int);
}

/// Of any `interval` consecutive calls that follow call `n >= 1`, exactly one
/// recomputes the bases: the one at offset `interval - n % interval`.
pub proof fn lemma_one_refresh_per_window(n: nat, interval: nat, j: nat)
    requires
        interval > 0,
        n >= 1,
        1 <= j <= interval,
    ensures
        refreshes_on_call(n + j, interval) <==> j == interval - n % interval,
{
    let k = interval as int;
    let r = n as int % k;
    let x = r + j;
    lemma_fundamental_div_mod(n as int, k);
    lemma_mod_multiples_vanish(n as int / k, x, k);
    assert((n + j) as int == k * (n as int / k) + x);
    if x < k {
        lemma_small_mod(x as nat, k as nat);
    } else if x > k {
        lemma_mod_sub_multiples_vanish(x, k);
        lemma_small_mod((x - k) as nat, k as nat);
    } else {
        lemma_mod_self_0(k);
    }
}

/// Calls numbered `1, interval + 1, 2 * interval + 1, ...` are the calls with
/// `n % interval == 1 % interval`. The schedule above agrees with that list on
/// the first call, on every call when the interval is 1, and on every call
/// whose number leaves a remainder other than 0 and 1 (none of which
/// recomputes the bases). On the other calls the two differ: the counter
/// reaching a multiple of the interval is what triggers a refresh.
pub proof fn lemma_cadence_matches_one_based_list(n: nat, interval: nat)
    requires
        interval > 0,
        n >= 1,
        n == 1 || interval == 1 || (n % interval != 0 && n % interval != 1),
    ensures
        refreshes_on_call(n, interval) <==> n % interval == 1nat % interval,
{
    if interval > 1 {
        lemma_small_mod(1, interval);
    }
}

} // verus!
