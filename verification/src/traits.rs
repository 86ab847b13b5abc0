use crate::errors::ConfigError;
use crate::model::value::Value;
use vstd::prelude::*;

verus! {

/// Whether a slot can take a layer: slot 0 holds the base value and is never
/// free, any other slot is free until it is used.
pub open spec fn slot_free(used: Seq<u64>, slot: u64) -> bool {
    slot != 0 && !used.contains(slot)
}

/// The slot behind the last one, if there is one.
pub open spec fn next_slot(last: u64) -> Option<u64> {
    if last == u64::MAX {
        None
    } else {
        Some((last + 1) as u64)
    }
}

/// The least free slot that is not below `from`.
pub open spec fn free_from(used: Seq<u64>, from: int) -> Option<u64>
    decreases u64::MAX + 1 - from,
{
    if from < 0 || from > u64::MAX {
        None
    } else if slot_free(used, from as u64) {
        Some(from as u64)
    } else {
        free_from(used, from + 1)
    }
}

/// The greatest free slot that is not above `from`.
pub open spec fn free_down_from(used: Seq<u64>, from: int) -> Option<u64>
    decreases from,
{
    if from <= 0 || from > u64::MAX {
        None
    } else if slot_free(used, from as u64) {
        Some(from as u64)
    } else {
        free_down_from(used, from - 1)
    }
}

/// The least free slot above `slot`.
pub open spec fn slot_after(used: Seq<u64>, slot: u64) -> Option<u64> {
    free_from(used, slot + 1)
}

/// The greatest free slot below `slot`.
pub open spec fn slot_before(used: Seq<u64>, slot: u64) -> Option<u64> {
    free_down_from(used, slot - 1)
}

/// `free_from` gives a free slot with no free slot between `from` and it,
/// and gives none only where no slot from `from` on is free.
pub proof fn lemma_free_from(used: Seq<u64>, from: int)
    requires
        0 <= from,
    ensures
        match free_from(used, from) {
            Some(s) => from <= s && slot_free(used, s) && forall|t: u64|
                from <= t < s ==> !slot_free(used, t),
            None => forall|t: u64| from <= t ==> !slot_free(used, t),
        },
    decreases u64::MAX + 1 - from,
{
    if from <= u64::MAX && !slot_free(used, from as u64) {
        lemma_free_from(used, from + 1);
    }
}

/// `free_down_from` gives a free slot with no free slot between it and
/// `from`, and gives none only where no slot up to `from` is free.
pub proof fn lemma_free_down_from(used: Seq<u64>, from: int)
    requires
        from <= u64::MAX,
    ensures
        match free_down_from(used, from) {
            Some(s) => s <= from && slot_free(used, s) && forall|t: u64|
                s < t <= from ==> !slot_free(used, t),
            None => forall|t: u64| t <= from ==> !slot_free(used, t),
        },
    decreases from,
{
    if from > 0 && !slot_free(used, from as u64) {
        lemma_free_down_from(used, from - 1);
    }
}

/// The used and free slots of a registry of layers, and the searches for a
/// free slot.
pub trait PriorityHandler {
    /// The slots in use, in the order in which they were taken.
    spec fn slots(&self) -> Seq<u64>;

    /// The slot that counts as the first one used.
    spec fn first_slot(&self) -> u64;

    /// The slot behind which `next` looks.
    spec fn last_slot(&self) -> u64;

    /// Checks if a slot is available.
    fn is_free(&self, index: &u64) -> (free: bool)
        ensures
            free == slot_free(self.slots(), *index),
    ;

    /// The slot behind the last one used; none behind the greatest slot.
    fn next(&self) -> (slot: Option<u64>)
        ensures
            slot == next_slot(self.last_slot()),
    ;

    /// The least free slot above the given one.
    fn after(&self, index: &u64) -> (slot: Option<u64>)
        ensures
            slot == slot_after(self.slots(), *index),
    ;

    /// The greatest free slot below the given one.
    fn before(&self, index: &u64) -> (slot: Option<u64>)
        ensures
            slot == slot_before(self.slots(), *index),
    ;

    /// The slot that counts as the last one used.
    fn last_used(&self) -> (slot: u64)
        ensures
            slot == self.last_slot(),
    ;

    /// The slot that counts as the first one used.
    fn first_used(&self) -> (slot: u64)
        ensures
            slot == self.first_slot(),
    ;

    /// The slots in use.
    fn used(&self) -> (slots: &Vec<u64>)
        ensures
            slots@ == self.slots(),
    ;
}

/// A source of one layer: it names itself, says where it wants to stand and
/// reads its value, which must be a mapping.
pub trait ConfigReader {
    /// The slot that the source asks for when the given slots are in use
    /// and the given slot counts as the last: what `get_priority` gives. A
    /// source that does not say which slot that is leaves it open: it is
    /// then some function of the source, the slots and the last slot.
    open spec fn placement(&self, used: Seq<u64>, last: u64) -> Option<u64> {
        (arbitrary::<spec_fn(&Self, Seq<u64>, u64) -> Option<u64>>())(self, used, last)
    }

    /// Name used in reports.
    fn name(&self) -> String;

    /// Reads the source.
    fn read(&self) -> Result<Value, ConfigError>;

    /// The slot that the source asks for, given what is used; `None` where
    /// it cannot be placed.
    fn get_priority<T: PriorityHandler>(&self, handler: &T) -> (slot: Option<u64>)
        ensures
            slot == self.placement(handler.slots(), handler.last_slot()),
    ;
}

} // verus!
