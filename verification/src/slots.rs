use vstd::prelude::*;

verus! {

/// The number of free slots from `from` on; a slot is free where its flag is off.
pub open spec fn free_from(flags: Seq<bool>, from: int) -> nat
    decreases flags.len() - from,
{
    if from < 0 || from >= flags.len() {
        0
    } else if flags[from] {
        free_from(flags, from + 1)
    } else {
        1 + free_from(flags, from + 1)
    }
}

/// The number of free slots.
pub open spec fn free_count(flags: Seq<bool>) -> nat {
    free_from(flags, 0)
}

/// The free slot that has `rank` free slots between `from` and itself, or
/// the number of slots where there is none.
pub open spec fn nth_free_from(flags: Seq<bool>, from: int, rank: nat) -> int
    decreases flags.len() - from,
{
    if from < 0 || from >= flags.len() {
        flags.len() as int
    } else if flags[from] {
        nth_free_from(flags, from + 1, rank)
    } else if rank == 0 {
        from
    } else {
        nth_free_from(flags, from + 1, (rank - 1) as nat)
    }
}

/// The free slot with `rank` free slots before it.
pub open spec fn nth_free(flags: Seq<bool>, rank: nat) -> int {
    nth_free_from(flags, 0, rank)
}

/// `count` slots, all of them free.
pub open spec fn all_free(count: nat) -> Seq<bool> {
    Seq::new(count, |i: int| false)
}

/// The number of free slots before `end`.
pub open spec fn free_before(flags: Seq<bool>, end: int) -> nat
    decreases end,
{
    if end <= 0 || end > flags.len() {
        0
    } else if flags[end - 1] {
        free_before(flags, end - 1)
    } else {
        1 + free_before(flags, end - 1)
    }
}

/// With a rank below the number of free slots, the slot found is free.
pub proof fn lemma_nth_free_is_free(flags: Seq<bool>, from: int, rank: nat)
    requires
        0 <= from,
        rank < free_from(flags, from),
    ensures
        from <= nth_free_from(flags, from, rank) < flags.len(),
        !flags[nth_free_from(flags, from, rank)],
    decreases flags.len() - from,
{
    if from < flags.len() {
        if flags[from] {
            lemma_nth_free_is_free(flags, from + 1, rank);
        } else if rank > 0 {
            lemma_nth_free_is_free(flags, from + 1, (rank - 1) as nat);
        }
    }
}

/// No more slots are free than there are.
pub proof fn lemma_free_from_bound(flags: Seq<bool>, from: int)
    requires
        0 <= from <= flags.len(),
    ensures
        free_from(flags, from) <= flags.len() - from,
    decreases flags.len() - from,
{
    if from < flags.len() {
        lemma_free_from_bound(flags, from + 1);
    }
}

/// Where every slot is free, as many are free as there are.
pub proof fn lemma_all_free(count: nat, from: int)
    requires
        0 <= from <= count,
    ensures
        free_from(all_free(count), from) == count - from,
    decreases count - from,
{
    if from < count {
        lemma_all_free(count, from + 1);
    }
}

/// Changing one slot changes the number of free slots by that slot alone.
pub proof fn lemma_free_from_update(flags: Seq<bool>, slot: int, taken: bool, from: int)
    requires
        0 <= slot < flags.len(),
        0 <= from,
    ensures
        free_from(flags.update(slot, taken), from) + (if from <= slot && !flags[slot] {
            1nat
        } else {
            0nat
        }) == free_from(flags, from) + (if from <= slot && !taken {
            1nat
        } else {
            0nat
        }),
    decreases flags.len() - from,
{
    if from < flags.len() {
        lemma_free_from_update(flags, slot, taken, from + 1);
    }
}

/// A free slot is the free slot of its own rank.
pub proof fn lemma_free_slot_has_rank(flags: Seq<bool>, from: int, slot: int)
    requires
        0 <= from <= slot < flags.len(),
        !flags[slot],
    ensures
        free_before(flags, slot) >= free_before(flags, from),
        nth_free_from(flags, from, (free_before(flags, slot) - free_before(flags, from)) as nat)
            == slot,
        free_before(flags, slot) - free_before(flags, from) < free_from(flags, from),
    decreases slot - from,
{
    if from < slot {
        lemma_free_slot_has_rank(flags, from + 1, slot);
    }
}

/// The number of free slots.
pub fn count_free(flags: &Vec<bool>) -> (count: usize)
    ensures
        count == free_count(flags@),
{
    let len = flags.len();
    let mut index: usize = len;
    let mut count: usize = 0;
    while index > 0
        invariant
            len == flags@.len(),
            index <= flags@.len(),
            count == free_from(flags@, index as int),
            count <= flags@.len() - index,
        decreases index,
    {
        index = index - 1;
        if !flags[index] {
            count = count + 1;
        }
    }
    count
}

/// The free slot with `rank` free slots before it.
pub fn find_nth_free(flags: &Vec<bool>, rank: usize) -> (slot: usize)
    requires
        rank < free_count(flags@),
    ensures
        slot == nth_free(flags@, rank as nat),
        slot < flags@.len(),
        !flags@[slot as int],
{
    let len = flags.len();
    let mut index: usize = 0;
    let mut left: usize = rank;
    proof {
        lemma_nth_free_is_free(flags@, 0, rank as nat);
    }
    loop
        invariant
            len == flags@.len(),
            index < flags@.len(),
            left < free_from(flags@, index as int),
            nth_free_from(flags@, index as int, left as nat) == nth_free(flags@, rank as nat),
            nth_free(flags@, rank as nat) < flags@.len(),
            !flags@[nth_free(flags@, rank as nat)],
        decreases flags@.len() - index,
    {
        if !flags[index] {
            if left == 0 {
                return index;
            }
            left = left - 1;
        }
        assert(free_from(flags@, len as int) == 0);
        index = index + 1;
    }
}

} // verus!
