use crate::traits::{
    free_from, lemma_free_down_from, lemma_free_from, next_slot, slot_after, slot_before, slot_free,
    PriorityHandler,
};
use vstd::prelude::*;
use vstd::relations::{sorted_by, total_ordering};
use vstd::seq_lib::lemma_sorted_unique;

verus! {

/// Where a layer asks to stand in the order of merging.
#[derive(Debug, Clone, PartialEq)]
pub enum Priority {
    /// Must be the first to be merged, or none.
    First,
    /// The first available slot.
    FirstAvailable,
    /// Must be the last to be merged, or none.
    Last,
    /// The last available slot.
    LastAvailable,
    /// Before the given slot, or none.
    Before(u64),
    /// After the given slot, or none.
    After(u64),
    /// Any available slot: the one behind the last used. Where the last used
    /// is the greatest slot there is, the search starts again behind the
    /// second greatest of the used slots: with 1, 2, 3 and the greatest in
    /// use it gives 4.
    Any,
}

/// The order of slots.
pub open spec fn slot_leq() -> spec_fn(u64, u64) -> bool {
    |a: u64, b: u64| a <= b
}

/// The used slots in ascending order.
pub open spec fn ascending(used: Seq<u64>) -> Seq<u64> {
    used.sort_by(slot_leq())
}

/// The slot that `Any` gives where no slot lies behind the last one: slot 1
/// while at most one slot is used, else the first free slot behind the
/// second greatest used slot, else the last free slot below the greatest.
pub open spec fn fallback_slot(used: Seq<u64>) -> Option<u64> {
    if used.len() <= 1 {
        Some(1)
    } else {
        match slot_after(used, ascending(used)[used.len() - 2]) {
            Some(slot) => Some(slot),
            None => slot_before(used, u64::MAX),
        }
    }
}

/// The slot that a placement resolves to, given the used slots and the last
/// one; `None` where no slot meets the placement.
pub open spec fn resolve(placement: Priority, used: Seq<u64>, last: u64) -> Option<u64> {
    match placement {
        Priority::First => if slot_free(used, 1) {
            Some(1)
        } else {
            None
        },
        Priority::FirstAvailable => slot_after(used, 0),
        Priority::Last => if slot_free(used, u64::MAX) {
            Some(u64::MAX)
        } else {
            None
        },
        Priority::LastAvailable => if slot_free(used, u64::MAX) {
            Some(u64::MAX)
        } else {
            slot_before(used, u64::MAX)
        },
        Priority::Before(slot) => slot_before(used, slot),
        Priority::After(slot) => slot_after(used, slot),
        Priority::Any => match next_slot(last) {
            Some(slot) => Some(slot),
            None => fallback_slot(used),
        },
    }
}

/// `sort` of std on a vector of integers: afterwards the vector holds the
/// same integers, each as often as before, in ascending order.
#[verifier::external_body]
fn sort_slots(slots: &mut Vec<u64>)
    ensures
        sorted_by(final(slots)@, slot_leq()),
        final(slots)@.to_multiset() == old(slots)@.to_multiset(),
{
    slots.sort();
}

/// The slots in ascending order.
pub fn sorted_slots(used: &Vec<u64>) -> (sorted: Vec<u64>)
    ensures
        sorted@ == ascending(used@),
        sorted@.len() == used@.len(),
{
    let mut sorted: Vec<u64> = Vec::new();
    let mut i: usize = 0;
    while i < used.len()
        invariant
            i <= used@.len(),
            sorted@ == used@.take(i as int),
        decreases used@.len() - i,
    {
        sorted.push(used[i]);
        assert(sorted@ =~= used@.take(i + 1));
        i += 1;
    }
    assert(sorted@ =~= used@);
    sort_slots(&mut sorted);
    proof {
        vstd::seq_lib::to_multiset_len(sorted@);
        vstd::seq_lib::to_multiset_len(used@);
        assert(total_ordering(slot_leq()));
        used@.lemma_sort_by_ensures(slot_leq());
        lemma_sorted_unique(sorted@, ascending(used@), slot_leq());
    }
    sorted
}

impl Priority {
    /// The slot that the placement resolves to in the handler's state.
    pub fn get_priority<T: PriorityHandler>(&self, handler: &T) -> (slot: Option<u64>)
        ensures
            slot == resolve(*self, handler.slots(), handler.last_slot()),
    {
        match self {
            Priority::First => {
                if handler.is_free(&1) {
                    Some(1)
                } else {
                    None
                }
            },
            Priority::FirstAvailable => handler.after(&0),
            Priority::Last => {
                if handler.is_free(&u64::MAX) {
                    Some(u64::MAX)
                } else {
                    None
                }
            },
            Priority::LastAvailable => {
                if handler.is_free(&u64::MAX) {
                    Some(u64::MAX)
                } else {
                    handler.before(&u64::MAX)
                }
            },
            Priority::Before(index) => handler.before(index),
            Priority::After(index) => handler.after(index),
            Priority::Any => match handler.next() {
                Some(index) => Some(index),
                None => {
                    let used = handler.used();
                    if used.len() <= 1 {
                        return Some(1);
                    }
                    let sorted = sorted_slots(used);
                    let second = sorted[sorted.len() - 2];
                    match handler.after(&second) {
                        Some(index) => Some(index),
                        None => handler.before(&u64::MAX),
                    }
                },
            },
        }
    }
}

/// A layer that must be first finds no slot once slot 1 is in use.
pub proof fn lemma_first_needs_slot_one(used: Seq<u64>, last: u64)
    ensures
        used.contains(1) ==> resolve(Priority::First, used, last) is None,
        !used.contains(1) ==> resolve(Priority::First, used, last) == Some(1u64),
{
}

/// The first available slot exists unless every slot from 1 on is in use,
/// and it is the least slot that is not in use.
pub proof fn lemma_first_available(used: Seq<u64>, last: u64)
    ensures
        resolve(Priority::FirstAvailable, used, last) is None <==> forall|slot: u64|
            1 <= slot ==> used.contains(slot),
        match resolve(Priority::FirstAvailable, used, last) {
            Some(slot) => 1 <= slot && !used.contains(slot) && forall|below: u64|
                1 <= below < slot ==> used.contains(below),
            None => true,
        },
{
    lemma_free_from(used, 1);
    match free_from(used, 1) {
        Some(slot) => {
            assert(slot_free(used, slot));
        },
        None => {
            assert forall|slot: u64| 1 <= slot implies used.contains(slot) by {
                assert(!slot_free(used, slot));
            }
        },
    }
    if forall|slot: u64| 1 <= slot ==> used.contains(slot) {
        if free_from(used, 1) is Some {
            assert(used.contains(free_from(used, 1)->Some_0));
        }
    }
    assert forall|below: u64|
        free_from(used, 1) is Some && 1 <= below < free_from(used, 1)->Some_0 implies used.contains(
        below,
    ) by {
        assert(!slot_free(used, below));
    }
}

/// No slot lies below the least one, and none above the greatest.
pub proof fn lemma_no_slot_beyond_the_ends(used: Seq<u64>)
    ensures
        slot_before(used, u64::MIN) is None,
        slot_after(used, u64::MAX) is None,
        forall|last: u64| resolve(Priority::Before(u64::MIN), used, last) is None,
        forall|last: u64| resolve(Priority::After(u64::MAX), used, last) is None,
{
}

/// A slot found above or below another is free and lies on that side.
pub proof fn lemma_neighbours_are_free(used: Seq<u64>, slot: u64)
    ensures
        match slot_after(used, slot) {
            Some(found) => slot < found && slot_free(used, found) && forall|between: u64|
                slot < between < found ==> !slot_free(used, between),
            None => forall|above: u64| slot < above ==> !slot_free(used, above),
        },
        match slot_before(used, slot) {
            Some(found) => found < slot && slot_free(used, found) && forall|between: u64|
                found < between < slot ==> !slot_free(used, between),
            None => forall|below: u64| below < slot ==> !slot_free(used, below),
        },
{
    lemma_free_from(used, slot + 1);
    lemma_free_down_from(used, slot - 1);
}

/// Every placement but `Any` resolves to a free slot or to none.
pub proof fn lemma_resolved_slot_is_free(placement: Priority, used: Seq<u64>, last: u64)
    requires
        !(placement is Any),
    ensures
        match resolve(placement, used, last) {
            Some(slot) => slot_free(used, slot),
            None => true,
        },
{
    lemma_neighbours_are_free(used, 0);
    lemma_neighbours_are_free(used, u64::MAX);
    match placement {
        Priority::Before(slot) => lemma_neighbours_are_free(used, slot),
        Priority::After(slot) => lemma_neighbours_are_free(used, slot),
        _ => {},
    }
}

} // verus!
