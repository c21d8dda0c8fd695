//! The contents of a ring buffer that keeps its most recent entries, and the
//! numbers they carry.
use vstd::prelude::*;

verus! {

/// Positions of a ring: while it has room it fills from the start, and once
/// full the cursor is at the oldest entry.
pub open spec fn ring_ok(capacity: int, cursor: int, count: int) -> bool {
    &&& 0 <= cursor < capacity
    &&& 0 <= count <= capacity
    &&& count < capacity ==> cursor == count
}

/// The entries of a ring, oldest first.
pub open spec fn ring_entries<T>(slots: Seq<T>, cursor: int, count: int) -> Seq<T> {
    if count < slots.len() {
        slots.take(count)
    } else {
        slots.skip(cursor) + slots.take(cursor)
    }
}

/// A bounded history after one more entry: the oldest entry makes room when
/// there is none.
pub open spec fn bounded_push<T>(history: Seq<T>, entry: T, capacity: nat) -> Seq<T> {
    if history.len() < capacity {
        history.push(entry)
    } else {
        history.drop_first().push(entry)
    }
}

/// Writing at the cursor and moving it on adds one entry to the history.
pub proof fn lemma_ring_push<T>(slots: Seq<T>, cursor: int, count: int, entry: T)
    requires
        ring_ok(slots.len() as int, cursor, count),
    ensures
        ({
            let capacity = slots.len() as int;
            let next_cursor = (cursor + 1) % capacity;
            let next_count = if count < capacity {
                count + 1
            } else {
                count
            };
            &&& ring_ok(capacity, next_cursor, next_count)
            &&& ring_entries(slots.update(cursor, entry), next_cursor, next_count)
                == bounded_push(ring_entries(slots, cursor, count), entry, slots.len())
        }),
{
    let capacity = slots.len() as int;
    let next_cursor = (cursor + 1) % capacity;
    let next_count = if count < capacity {
        count + 1
    } else {
        count
    };
    if cursor + 1 < capacity {
        vstd::arithmetic::div_mod::lemma_small_mod((cursor + 1) as nat, capacity as nat);
    } else {
        vstd::arithmetic::div_mod::lemma_mod_self_0(capacity);
    }
    assert(ring_entries(slots.update(cursor, entry), next_cursor, next_count) =~= bounded_push(
        ring_entries(slots, cursor, count),
        entry,
        slots.len(),
    ));
}

/// The last `n` entries of a sequence, or all of it if it is shorter.
pub open spec fn last_entries<T>(entries: Seq<T>, n: nat) -> Seq<T> {
    if entries.len() <= n {
        entries
    } else {
        entries.skip(entries.len() - n)
    }
}

/// Keeping the last entries and then adding one is adding it and then keeping
/// the last entries.
proof fn lemma_last_entries_push<T>(entries: Seq<T>, entry: T, n: nat)
    requires
        0 < n,
    ensures
        bounded_push(last_entries(entries, n), entry, n) == last_entries(entries.push(entry), n),
{
    assert(bounded_push(last_entries(entries, n), entry, n) =~= last_entries(
        entries.push(entry),
        n,
    ));
}

/// An entry that carries the number it was given when it was recorded.
pub trait Sequenced: Sized {
    /// The entry with a sequence number stamped on it.
    spec fn stamped(self, sequence: u64) -> Self;
}

/// The number `n` places after `first`, counting around at the end of the
/// range.
pub open spec fn sequence_after(first: u64, n: nat) -> u64 {
    ((first + n) % 0x1_0000_0000_0000_0000) as u64
}

/// The entries as they are numbered when recorded one after the other from
/// `first` on.
pub open spec fn numbered<T: Sequenced>(entries: Seq<T>, first: u64) -> Seq<T> {
    Seq::new(entries.len(), |i: int| entries[i].stamped(sequence_after(first, i as nat)))
}

/// What a history of bounded length holds after more entries were recorded:
/// the most recent of all entries, the new ones numbered from `first` on.
pub open spec fn most_recent<T: Sequenced>(
    history: Seq<T>,
    entries: Seq<T>,
    first: u64,
    capacity: nat,
) -> Seq<T> {
    last_entries(history + numbered(entries, first), capacity)
}

/// The most recent entries are what a bounded history holds that starts with
/// no more than it has room for and takes one entry at a time.
pub proof fn lemma_most_recent<T: Sequenced>(
    history: Seq<T>,
    entries: Seq<T>,
    first: u64,
    capacity: nat,
)
    requires
        0 < capacity,
        history.len() <= capacity,
    ensures
        entries.len() == 0 ==> most_recent(history, entries, first, capacity) == history,
        entries.len() > 0 ==> most_recent(history, entries, first, capacity) == bounded_push(
            most_recent(history, entries.drop_last(), first, capacity),
            entries.last().stamped(sequence_after(first, (entries.len() - 1) as nat)),
            capacity,
        ),
{
    if entries.len() == 0 {
        assert(history + numbered(entries, first) =~= history);
    } else {
        let earlier = history + numbered(entries.drop_last(), first);
        let entry = entries.last().stamped(sequence_after(first, (entries.len() - 1) as nat));
        assert(history + numbered(entries, first) =~= earlier.push(entry));
        lemma_last_entries_push(earlier, entry, capacity);
    }
}

} // verus!
