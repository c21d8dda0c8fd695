//! Tables of slots that fill from the start.
use vstd::prelude::*;

verus! {

/// A slot of a table, which holds an entry or is free.
pub trait Slot: Sized {
    /// Whether the slot holds an entry.
    spec fn in_use(self) -> bool;
}

/// Exactly the first `n` slots are in use.
pub open spec fn filled<T: Slot>(slots: Seq<T>, n: nat) -> bool {
    &&& n <= slots.len()
    &&& forall|i: int| 0 <= i < slots.len() ==> ((#[trigger] slots[i]).in_use() <==> i < n)
}

/// Number of slots in use, in a table that fills from the start.
pub open spec fn filled_len<T: Slot>(slots: Seq<T>) -> nat {
    choose|n: nat| filled(slots, n)
}

/// A table fills up to one place.
pub proof fn lemma_filled_len<T: Slot>(slots: Seq<T>, n: nat)
    requires
        filled(slots, n),
    ensures
        filled_len(slots) == n,
{
    let m = filled_len(slots);
    if m < n {
        assert(slots[m as int].in_use());
    } else if n < m {
        assert(slots[n as int].in_use());
    }
}

} // verus!
