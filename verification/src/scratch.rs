//! Capacity of a scratch buffer that is reused from frame to frame.

use vstd::prelude::*;

verus! {

/// The capacity that holds `needed` elements, reached from `capacity` by
/// doubling: `capacity` itself where it is enough, else the first of
/// `2 * capacity`, `4 * capacity`, ... that is (from 1, where there was none).
pub open spec fn grown(capacity: nat, needed: nat) -> nat
    decreases (if needed > capacity { needed - capacity } else { 0 }),
{
    if needed <= capacity {
        capacity
    } else if capacity == 0 {
        grown(1, needed)
    } else {
        grown(2 * capacity, needed)
    }
}

/// `n`, or the largest `usize` where `n` is beyond it.
pub open spec fn capped(n: nat) -> nat {
    if n <= usize::MAX {
        n
    } else {
        usize::MAX as nat
    }
}

/// Growing never shrinks, always makes room, and at most doubles what is
/// needed.
pub proof fn lemma_grown_bounds(capacity: nat, needed: nat)
    ensures
        grown(capacity, needed) >= capacity,
        grown(capacity, needed) >= needed,
        needed <= capacity ==> grown(capacity, needed) == capacity,
        needed > capacity ==> grown(capacity, needed) < 2 * needed,
    decreases (if needed > capacity { needed - capacity } else { 0 }),
{
    if needed <= capacity {
    } else if capacity == 0 {
        lemma_grown_bounds(1, needed);
    } else {
        lemma_grown_bounds(2 * capacity, needed);
    }
}

/// How many elements a buffer on the GPU has room for. It grows by doubling
/// and never shrinks, so that a run of frames settles on one allocation.
#[derive(Clone, Copy, Debug, PartialEq, Eq)]
pub struct ScratchBuffer {
    capacity: usize,
}

impl View for ScratchBuffer {
    type V = nat;

    closed spec fn view(&self) -> nat {
        self.capacity as nat
    }
}

impl ScratchBuffer {
    /// The room of a buffer is a machine number.
    pub proof fn lemma_room_is_bounded(self)
        ensures
            self@ <= usize::MAX,
    {
    }

    /// A buffer without room.
    pub fn new() -> (s: ScratchBuffer)
        ensures
            s@ == 0,
    {
        ScratchBuffer { capacity: 0 }
    }

    /// The number of elements that the buffer has room for.
    pub fn capacity(&self) -> (c: usize)
        ensures
            c == self@,
    {
        self.capacity
    }

    /// Makes room for `needed` elements. Returns whether the capacity changed,
    /// that is whether the buffer has to be allocated anew.
    pub fn reserve(&mut self, needed: usize) -> (grew: bool)
        ensures
            final(self)@ == capped(grown(old(self)@, needed as nat)),
            grew == (old(self)@ < needed),
    {
        let start: usize = self.capacity;
        let mut capacity: usize = start;
        while capacity < needed
            invariant
                capped(grown(capacity as nat, needed as nat)) == capped(grown(start as nat, needed as nat)),
            decreases (if needed > capacity { needed - capacity } else { 0 }),
        {
            if capacity == 0 {
                capacity = 1;
            } else if capacity <= usize::MAX / 2 {
                capacity = capacity * 2;
            } else {
                proof {
                    lemma_grown_bounds(2 * capacity as nat, needed as nat);
                }
                capacity = usize::MAX;
            }
        }
        self.capacity = capacity;
        start < needed
    }
}

} // verus!
