use crate::builder::priority::{ascending, resolve, sorted_slots, Priority};
use crate::errors::ConfigError;
use crate::model::merge::merged;
use crate::model::value::{Tree, Value};
use crate::traits::{
    free_down_from, free_from, slot_after, slot_free, ConfigReader, PriorityHandler,
};
use std::collections::HashMap;
use vstd::prelude::*;
use vstd::std_specs::hash::group_hash_axioms;

verus! {

broadcast use group_hash_axioms;

/// Gathers layers, each under its slot, above a base value in slot 0, and
/// merges them in the order of their slots.
#[derive(Debug, PartialEq, Clone)]
pub struct ConfigBuilder {
    /// The slots in use, in the order in which they were taken.
    pub priority_list: Vec<u64>,
    /// The least slot in use; 0 while none is.
    pub priority_first: u64,
    /// The slot behind which the next free one is looked for.
    pub priority_last: u64,
    /// The base value under 0 and each layer under its slot.
    pub values: HashMap<u64, Value>,
}

/// The base with the layers merged into it one after the other, in the order
/// given; slot 0 is the base itself and is passed over.
pub open spec fn fold_layers(base: Tree, order: Seq<u64>, values: Map<u64, Value>) -> Tree
    decreases order.len(),
{
    if order.len() == 0 {
        base
    } else {
        let front = fold_layers(base, order.drop_last(), values);
        if order.last() == 0 {
            front
        } else {
            merged(front, values[order.last()]@)
        }
    }
}

/// What a check of a resolved placement gives: the slot itself where it can
/// take a layer, else the reason why not.
pub open spec fn validated(used: Seq<u64>, asked: Option<u64>) -> Result<u64, ConfigError> {
    match asked {
        Some(slot) => if slot == 0 {
            Err(ConfigError::BuilderPriorityReserved)
        } else if used.contains(slot) {
            Err(ConfigError::BuilderPriorityInUse(slot))
        } else {
            Ok(slot)
        },
        None => Err(ConfigError::BuilderPriorityNotFound),
    }
}

/// What becomes of a builder that takes in what a source gave, the slot it
/// asked for and what was read from it: the layer goes under the slot,
/// which is the result, where the slot can take a layer and a mapping was
/// read. In every other case the builder stays as it is and the result is
/// the reason: why the slot cannot be taken, else the failure of the
/// reading, else that no mapping was read.
pub open spec fn taken_in(
    before: ConfigBuilder,
    asked: Option<u64>,
    read: Result<Value, ConfigError>,
    r: Result<u64, ConfigError>,
    after: ConfigBuilder,
) -> bool {
    match validated(before.priority_list@, asked) {
        Err(e) => r == Err::<u64, ConfigError>(e) && after == before,
        Ok(slot) => match read {
            Err(e) => r == Err::<u64, ConfigError>(e) && after == before,
            Ok(value) => if value@ is Mapping {
                &&& r == Ok::<u64, ConfigError>(slot)
                &&& after.priority_list@ == before.priority_list@.push(slot)
                &&& after.values@ == before.values@.insert(slot, value)
                &&& after.priority_first == if before.priority_first == 0 || slot
                    < before.priority_first {
                    slot
                } else {
                    before.priority_first
                }
                &&& after.priority_last == if slot > before.priority_last {
                    slot
                } else {
                    before.priority_last
                }
            } else {
                r == Err::<u64, ConfigError>(ConfigError::NotMapValue) && after == before
            },
        },
    }
}

/// Whether the list holds the slot.
pub fn holds_slot(list: &Vec<u64>, slot: u64) -> (yes: bool)
    ensures
        yes == list@.contains(slot),
{
    let mut i: usize = 0;
    while i < list.len()
        invariant
            i <= list@.len(),
            forall|j: int| 0 <= j < i ==> list@[j] != slot,
        decreases list@.len() - i,
    {
        if list[i] == slot {
            return true;
        }
        i += 1;
    }
    false
}

impl ConfigBuilder {
    /// Whether the base value and every layer are there, each of them a
    /// mapping, and no slot is used twice.
    pub open spec fn well_formed(&self) -> bool {
        &&& self.values@.contains_key(0)
        &&& self.values@[0]@ is Mapping
        &&& self.priority_list@.no_duplicates()
        &&& forall|i: int|
            0 <= i < self.priority_list@.len() ==> {
                &&& (#[trigger] self.priority_list@[i]) != 0
                &&& self.values@.contains_key(self.priority_list@[i])
                &&& self.values@[self.priority_list@[i]]@ is Mapping
            }
    }

    /// Whether the base value is there, and the value of every slot in use.
    /// A build needs no more.
    pub open spec fn complete(&self) -> bool {
        &&& self.values@.contains_key(0)
        &&& forall|i: int|
            0 <= i < self.priority_list@.len() ==> self.values@.contains_key(
                #[trigger] self.priority_list@[i],
            )
    }

    /// A builder with an empty mapping as its base and no layer.
    pub fn new() -> (builder: ConfigBuilder)
        ensures
            builder.well_formed(),
            builder.priority_list@ == Seq::<u64>::empty(),
            builder.priority_first == 0,
            builder.priority_last == 100,
            builder.values@.dom() == set![0u64],
            builder.values@[0]@ == Tree::Mapping(Map::empty()),
    {
        let mut values: HashMap<u64, Value> = HashMap::new();
        values.insert(0, Value::new_map());
        let builder = ConfigBuilder {
            priority_list: Vec::new(),
            priority_first: 0,
            priority_last: 100,
            values,
        };
        assert(builder.values@.dom() =~= set![0u64]);
        builder
    }

    /// A builder with the given base and no layer. The base must be a mapping.
    pub fn from_base(base: Value) -> (r: Result<ConfigBuilder, ConfigError>)
        ensures
            match r {
                Ok(builder) => base@ is Mapping && builder.well_formed() && builder.priority_list@
                    == Seq::<u64>::empty() && builder.priority_first == 0 && builder.priority_last
                    == 100 && builder.values@.dom() == set![0u64] && builder.values@[0] == base,
                Err(e) => !(base@ is Mapping) && e == ConfigError::NotMapValue,
            },
    {
        if !base.is_map() {
            return Err(ConfigError::NotMapValue);
        }
        let mut values: HashMap<u64, Value> = HashMap::new();
        values.insert(0, base);
        let builder = ConfigBuilder {
            priority_list: Vec::new(),
            priority_first: 0,
            priority_last: 100,
            values,
        };
        assert(builder.values@.dom() =~= set![0u64]);
        Ok(builder)
    }

    /// Checks a resolved placement against the slots in use.
    pub fn validate_priority(&self, priority: Option<u64>) -> (r: Result<u64, ConfigError>)
        ensures
            r == validated(self.priority_list@, priority),
    {
        match priority {
            Some(priority) => {
                if priority == 0 {
                    return Err(ConfigError::BuilderPriorityReserved);
                }
                if holds_slot(&self.priority_list, priority) {
                    return Err(ConfigError::BuilderPriorityInUse(priority));
                }
                Ok(priority)
            },
            None => Err(ConfigError::BuilderPriorityNotFound),
        }
    }

    /// Puts a layer under a free slot.
    pub fn set_value(&mut self, priority: u64, value: Value)
        requires
            slot_free(old(self).priority_list@, priority),
            value@ is Mapping,
        ensures
            final(self).priority_list@ == old(self).priority_list@.push(priority),
            final(self).values@ == old(self).values@.insert(priority, value),
            final(self).priority_first == if old(self).priority_first == 0 || priority < old(self).priority_first {
                priority
            } else {
                old(self).priority_first
            },
            final(self).priority_last == if priority > old(self).priority_last {
                priority
            } else {
                old(self).priority_last
            },
            old(self).well_formed() ==> final(self).well_formed(),
    {
        if self.priority_first == 0 || priority < self.priority_first {
            self.priority_first = priority;
        }
        if priority > self.priority_last {
            self.priority_last = priority;
        }
        self.priority_list.push(priority);
        self.values.insert(priority, value);
        proof {
            if old(self).well_formed() {
                assert forall|i: int| 0 <= i < self.priority_list@.len() implies {
                    &&& (#[trigger] self.priority_list@[i]) != 0
                    &&& self.values@.contains_key(self.priority_list@[i])
                    &&& self.values@[self.priority_list@[i]]@ is Mapping
                } by {
                    if i < old(self).priority_list@.len() {
                        assert(self.priority_list@[i] == old(self).priority_list@[i]);
                    }
                }
            }
        }
    }

    /// Takes in what a source gave: the layer goes under the slot asked for,
    /// where the slot can take it and the value read is a mapping. In every
    /// other case nothing changes.
    pub fn place(&mut self, asked: Option<u64>, read: Result<Value, ConfigError>) -> (r: Result<
        u64,
        ConfigError,
    >)
        ensures
            taken_in(*old(self), asked, read, r, *final(self)),
            old(self).well_formed() ==> final(self).well_formed(),
    {
        let slot = match self.validate_priority(asked) {
            Ok(slot) => slot,
            Err(e) => {
                return Err(e);
            },
        };
        let value = match read {
            Ok(value) => value,
            Err(e) => {
                return Err(e);
            },
        };
        if !value.is_map() {
            return Err(ConfigError::NotMapValue);
        }
        self.set_value(slot, value);
        Ok(slot)
    }

    /// Reads the source and takes its layer in under the slot it asks for.
    /// Gives the slot used. Where the source cannot be placed, fails to read
    /// or gives no mapping, nothing changes.
    ///
    /// The source is asked for its slot with the builder as it stands. Where
    /// that slot cannot take a layer, the source is not read and the reason
    /// is the result. Else the source is read once, and what it gave is
    /// taken in as `taken_in` says.
    pub fn add_config<T: ConfigReader>(&mut self, source: &T) -> (r: Result<u64, ConfigError>)
        ensures
            match validated(
                old(self).priority_list@,
                source.placement(old(self).priority_list@, old(self).priority_last),
            ) {
                Err(e) => r == Err::<u64, ConfigError>(e) && *final(self) == *old(self),
                Ok(_) => exists|read: Result<Value, ConfigError>|
                    #[trigger] call_ensures(T::read, (source,), read) && taken_in(
                        *old(self),
                        source.placement(old(self).priority_list@, old(self).priority_last),
                        read,
                        r,
                        *final(self),
                    ),
            },
            match r {
                Ok(slot) => {
                    &&& slot_free(old(self).priority_list@, slot)
                    &&& final(self).priority_list@ == old(self).priority_list@.push(slot)
                    &&& final(self).values@.dom() == old(self).values@.dom().insert(slot)
                    &&& final(self).values@[slot]@ is Mapping
                    &&& forall|other: u64|
                        other != slot && old(self).values@.contains_key(other) ==> final(self).values@[other] == old(self).values@[other]
                    &&& old(self).well_formed() ==> final(self).well_formed()
                },
                Err(_) => *final(self) == *old(self),
            },
    {
        let asked = source.get_priority(&*self);
        let slot = match self.validate_priority(asked) {
            Ok(slot) => slot,
            Err(e) => {
                return Err(e);
            },
        };
        let read = source.read();
        self.place(Some(slot), read)
    }

    /// Takes a value in as a layer at the placement given.
    pub fn add_value(&mut self, priority: Priority, value: Value) -> (r: Result<u64, ConfigError>)
        ensures
            taken_in(
                *old(self),
                resolve(priority, old(self).priority_list@, old(self).priority_last),
                Ok(value),
                r,
                *final(self),
            ),
            old(self).well_formed() ==> final(self).well_formed(),
    {
        let asked = priority.get_priority(&*self);
        self.place(asked, Ok(value))
    }

    /// Takes a value in as a layer at any free slot.
    pub fn append_value(&mut self, value: Value) -> (r: Result<u64, ConfigError>)
        ensures
            taken_in(
                *old(self),
                resolve(Priority::Any, old(self).priority_list@, old(self).priority_last),
                Ok(value),
                r,
                *final(self),
            ),
            old(self).well_formed() ==> final(self).well_formed(),
    {
        self.add_value(Priority::Any, value)
    }

    /// Makes `priority` the slot behind which the next free one is looked
    /// for. Fails, and changes nothing, where the slot is not in use and no
    /// slot above it is free.
    pub fn start_from(&mut self, priority: u64) -> (r: Result<(), ConfigError>)
        ensures
            final(self).priority_list == old(self).priority_list,
            final(self).priority_first == old(self).priority_first,
            final(self).values == old(self).values,
            if !old(self).priority_list@.contains(priority) && slot_after(
                old(self).priority_list@,
                priority,
            ) is None {
                r == Err::<(), ConfigError>(ConfigError::BuilderPriorityNotFound) && final(self).priority_last == old(self).priority_last
            } else {
                r == Ok::<(), ConfigError>(()) && final(self).priority_last == priority
            },
    {
        if !holds_slot(&self.priority_list, priority) {
            match self.after(&priority) {
                Some(_) => {},
                None => {
                    return Err(ConfigError::BuilderPriorityNotFound);
                },
            }
        }
        self.priority_last = priority;
        Ok(())
    }

    /// The base with every layer merged into it, in ascending order of slots.
    pub fn build(&self) -> (value: Value)
        requires
            self.complete(),
        ensures
            value@ == fold_layers(self.values@[0]@, ascending(self.priority_list@), self.values@),
    {
        let mut base = match self.values.get(&0) {
            Some(base) => base.clone(),
            None => Value::new_map(),
        };
        let sorted = sorted_slots(&self.priority_list);
        proof {
            self.priority_list@.lemma_sort_by_ensures(crate::builder::priority::slot_leq());
        }
        let mut i: usize = 0;
        while i < sorted.len()
            invariant
                i <= sorted@.len(),
                sorted@ == ascending(self.priority_list@),
                forall|x: u64| sorted@.contains(x) ==> self.priority_list@.contains(x),
                self.complete(),
                base@ == fold_layers(self.values@[0]@, sorted@.take(i as int), self.values@),
            decreases sorted@.len() - i,
        {
            let priority = sorted[i];
            proof {
                assert(sorted@.take(i + 1).drop_last() =~= sorted@.take(i as int));
                assert(sorted@.take(i + 1).last() == priority);
                assert(sorted@.contains(priority));
            }
            if priority != 0 {
                match self.values.get(&priority) {
                    Some(value) => {
                        base.merge(value);
                    },
                    None => {
                        assert(false);
                    },
                }
            }
            i += 1;
        }
        assert(sorted@.take(sorted@.len() as int) =~= sorted@);
        base
    }
}

impl PriorityHandler for ConfigBuilder {
    open spec fn slots(&self) -> Seq<u64> {
        self.priority_list@
    }

    open spec fn first_slot(&self) -> u64 {
        self.priority_first
    }

    open spec fn last_slot(&self) -> u64 {
        self.priority_last
    }

    fn is_free(&self, index: &u64) -> (free: bool) {
        if *index == 0 {
            return false;
        }
        !holds_slot(&self.priority_list, *index)
    }

    fn next(&self) -> (slot: Option<u64>) {
        if self.priority_last == u64::MAX {
            return None;
        }
        Some(self.priority_last + 1)
    }

    fn after(&self, index: &u64) -> (slot: Option<u64>) {
        if *index == u64::MAX {
            return None;
        }
        let mut next: u64 = *index + 1;
        while !self.is_free(&next)
            invariant
                *index < next,
                free_from(self.priority_list@, *index + 1) == free_from(
                    self.priority_list@,
                    next as int,
                ),
            decreases u64::MAX - next,
        {
            if next == u64::MAX {
                assert(free_from(self.priority_list@, u64::MAX + 1) is None);
                return None;
            }
            next += 1;
        }
        Some(next)
    }

    fn before(&self, index: &u64) -> (slot: Option<u64>) {
        if *index == u64::MIN {
            return None;
        }
        let mut next: u64 = *index - 1;
        while !self.is_free(&next)
            invariant
                next < *index,
                free_down_from(self.priority_list@, *index - 1) == free_down_from(
                    self.priority_list@,
                    next as int,
                ),
            decreases next,
        {
            if next == u64::MIN {
                return None;
            }
            next -= 1;
        }
        Some(next)
    }

    fn last_used(&self) -> (slot: u64) {
        self.priority_last
    }

    fn first_used(&self) -> (slot: u64) {
        self.priority_first
    }

    fn used(&self) -> (slots: &Vec<u64>) {
        &self.priority_list
    }
}

} // verus!
