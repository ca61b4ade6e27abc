//! Wrap-around index stepping, shared by the driver registry and the
//! camera-mode machine: both cycle through a non-empty list in declaration
//! order, returning to the front after the last entry.

use vstd::prelude::*;

verus! {

use vstd::arithmetic::div_mod::{lemma_mod_add_multiples_vanish, lemma_small_mod};

/// The index after `i` in a list of length `n`: one further, or 0 after the
/// last entry.  The wrap test is `i + 1 >= n` rather than a modulus, so a
/// one-entry list stays at 0 without any subtraction that could underflow.
pub open spec fn next_index(i: nat, n: nat) -> nat {
    if i + 1 >= n {
        0
    } else {
        i + 1
    }
}

/// The index reached from `i` after `k` steps of [`next_index`].
pub open spec fn iter_next(i: nat, n: nat, k: nat) -> nat
    decreases k,
{
    if k == 0 {
        i
    } else {
        iter_next(next_index(i, n), n, (k - 1) as nat)
    }
}

/// Stepping is addition modulo the list length.
pub proof fn lemma_iter_next_adds(i: nat, n: nat, k: nat)
    requires
        0 < n,
        i < n,
    ensures
        iter_next(i, n, k) == (i + k) % n,
    decreases k,
{
    if k == 0 {
        lemma_small_mod(i, n);
    } else {
        let j = next_index(i, n);
        lemma_iter_next_adds(j, n, (k - 1) as nat);
        if i + 1 >= n {
            lemma_mod_add_multiples_vanish(k - 1, n as int);
            assert(i + k == n + (k - 1));
        }
    }
}

/// Cycling is periodic with the length of the list: from any position,
/// exactly `n` steps lead back to it — so a one-entry list stays at 0, and
/// no sequence of steps can leave the list or skip an entry's turn.
pub proof fn lemma_cycle_period(i: nat, n: nat)
    requires
        0 < n,
        i < n,
    ensures
        iter_next(i, n, n) == i,
{
    lemma_iter_next_adds(i, n, n);
    lemma_mod_add_multiples_vanish(i as int, n as int);
    lemma_small_mod(i, n);
}

/// Every position a walk visits stays inside the list.
pub proof fn lemma_iter_next_in_range(i: nat, n: nat, k: nat)
    requires
        0 < n,
        i < n,
    ensures
        iter_next(i, n, k) < n,
{
    lemma_iter_next_adds(i, n, k);
    vstd::arithmetic::div_mod::lemma_mod_division_less_than_divisor((i + k) as int, n as int);
}

} // verus!
