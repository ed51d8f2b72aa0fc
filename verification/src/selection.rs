//! Cyclic, bounds-safe selection over an ordered list.
//!
//! A selection is an optional index into a list. Moving forward from the last
//! index wraps to the first, and moving backward from the first wraps to the
//! last; on a one-element list both moves re-select the only index.

use vstd::prelude::*;

verus! {

/// The index one step forward from `i` in a list of length `n`, wrapping
/// from the last index back to `0`.
pub open spec fn cyc_next(i: int, n: int) -> int {
    if i + 1 < n {
        i + 1
    } else {
        0
    }
}

/// The index one step backward from `i` in a list of length `n`, wrapping
/// from `0` back to the last index.
pub open spec fn cyc_prev(i: int, n: int) -> int {
    if i > 0 {
        i - 1
    } else {
        n - 1
    }
}

/// `k` forward steps from `i` in a list of length `n`.
pub open spec fn cyc_next_steps(i: int, n: int, k: nat) -> int
    decreases k,
{
    if k == 0 {
        i
    } else {
        cyc_next(cyc_next_steps(i, n, (k - 1) as nat), n)
    }
}

/// `k` backward steps from `i` in a list of length `n`.
pub open spec fn cyc_prev_steps(i: int, n: int, k: nat) -> int
    decreases k,
{
    if k == 0 {
        i
    } else {
        cyc_prev(cyc_prev_steps(i, n, (k - 1) as nat), n)
    }
}

proof fn lemma_cyc_next_steps_value(i: int, n: int, k: nat)
    requires
        0 <= i < n,
        k <= n,
    ensures
        cyc_next_steps(i, n, k) == if i + k < n {
            i + k
        } else {
            i + k - n
        },
    decreases k,
{
    if k > 0 {
        lemma_cyc_next_steps_value(i, n, (k - 1) as nat);
    }
}

proof fn lemma_cyc_prev_steps_value(i: int, n: int, k: nat)
    requires
        0 <= i < n,
        k <= n,
    ensures
        cyc_prev_steps(i, n, k) == if i - k >= 0 {
            i - k
        } else {
            i - k + n
        },
    decreases k,
{
    if k > 0 {
        lemma_cyc_prev_steps_value(i, n, (k - 1) as nat);
    }
}

/// On a list of length `n >= 1`, taking `n` forward steps from any valid
/// start returns to the start, and on a one-element list a single forward
/// step re-selects the only index.
pub proof fn lemma_cyc_next_round_trip(i: int, n: int)
    requires
        0 <= i < n,
    ensures
        cyc_next_steps(i, n, n as nat) == i,
        n == 1 ==> cyc_next(i, n) == i,
{
    lemma_cyc_next_steps_value(i, n, n as nat);
}

/// On a list of length `n >= 1`, taking `n` backward steps from any valid
/// start returns to the start, and on a one-element list a single backward
/// step re-selects the only index.
pub proof fn lemma_cyc_prev_round_trip(i: int, n: int)
    requires
        0 <= i < n,
    ensures
        cyc_prev_steps(i, n, n as nat) == i,
        n == 1 ==> cyc_prev(i, n) == i,
{
    lemma_cyc_prev_steps_value(i, n, n as nat);
}

/// A selection into a rendered list: either no index, or one index that
/// callers keep inside the bounds of the list the state belongs to.
pub struct ListState {
    pub selected: Option<usize>,
}

impl Default for ListState {
    /// A fresh state selects nothing.
    fn default() -> (r: Self)
        ensures
            r.selected is None,
    {
        ListState { selected: None }
    }
}

impl ListState {
    /// True when the selection stays inside a list of length `n`:
    /// unset, or a valid index.
    pub open spec fn in_bounds(&self, n: nat) -> bool {
        match self.selected {
            Option::None => true,
            Option::Some(i) => i < n,
        }
    }

    /// True when the selection is unset exactly on an empty list, and a
    /// valid index otherwise.
    pub open spec fn consistent_with(&self, n: nat) -> bool {
        match self.selected {
            Option::None => n == 0,
            Option::Some(i) => i < n,
        }
    }

    /// Replaces the selection.
    pub fn select(&mut self, idx: Option<usize>)
        ensures
            final(self).selected == idx,
    {
        self.selected = idx;
    }

    /// The current selection.
    pub fn selected(&self) -> (r: Option<usize>)
        ensures
            r == self.selected,
    {
        self.selected
    }
}

} // verus!
