//! The source of team ids.

use vstd::prelude::*;

verus! {

/// The id that is issued directly after `id`: one more, or zero once the
/// largest value has been issued.
pub open spec fn id_after(id: usize) -> usize {
    if id == usize::MAX {
        0
    } else {
        (id + 1) as usize
    }
}

/// The id that a counter standing at `first` issues on its call number `k`,
/// counting from zero.
pub open spec fn nth_id(first: usize, k: nat) -> usize
    decreases k,
{
    if k == 0 {
        first
    } else {
        id_after(nth_id(first, (k - 1) as nat))
    }
}

/// Hands out team ids in increasing order, starting at zero; after the largest
/// value of `usize` it starts again at zero. Its value is the id that the next
/// call of [`IdCounter::issue`] returns.
#[derive(Debug)]
pub struct IdCounter {
    next: usize,
}

impl View for IdCounter {
    type V = usize;

    closed spec fn view(&self) -> usize {
        self.next
    }
}

impl IdCounter {
    /// A counter whose first id is zero.
    pub fn new() -> (counter: IdCounter)
        ensures
            counter@ == 0,
    {
        IdCounter { next: 0 }
    }

    /// The id that the next call of [`IdCounter::issue`] returns.
    pub fn peek(&self) -> (id: usize)
        ensures
            id == self@,
    {
        self.next
    }

    /// Returns the current id and moves on to the one after it.
    pub fn issue(&mut self) -> (id: usize)
        ensures
            id == old(self)@,
            final(self)@ == id_after(old(self)@),
    {
        let id = self.next;
        self.next = id.wrapping_add(1);
        id
    }
}

/// Call number `i + d` of a counter is call number `d` of the counter as it
/// stands after `i` calls.
pub proof fn lemma_nth_id_resumes(first: usize, i: nat, d: nat)
    ensures
        nth_id(first, i + d) == nth_id(nth_id(first, i), d),
    decreases d,
{
    if d > 0 {
        lemma_nth_id_resumes(first, i, (d - 1) as nat);
    }
}

/// Over as many calls as there are values of `usize`, the ids count up by one
/// from `first` and start again at zero once after the largest value.
pub proof fn lemma_nth_id_value(first: usize, k: nat)
    requires
        k <= usize::MAX + 1,
    ensures
        nth_id(first, k) == if first + k <= usize::MAX {
            first + k
        } else {
            first + k - (usize::MAX + 1)
        },
    decreases k,
{
    if k > 0 {
        lemma_nth_id_value(first, (k - 1) as nat);
    }
}

/// A counter that starts at zero issues `k` on call number `k`.
pub proof fn lemma_ids_count_from_zero(k: nat)
    requires
        k <= usize::MAX,
    ensures
        nth_id(0, k) == k,
{
    lemma_nth_id_value(0, k);
}

/// Two calls of one counter return different ids, unless as many calls lie
/// between them as there are values of `usize`.
pub proof fn lemma_issued_ids_differ(first: usize, i: nat, j: nat)
    requires
        i < j,
        j - i <= usize::MAX,
    ensures
        nth_id(first, i) != nth_id(first, j),
{
    let d = (j - i) as nat;
    lemma_nth_id_resumes(first, i, d);
    lemma_nth_id_value(nth_id(first, i), d);
}

} // verus!
