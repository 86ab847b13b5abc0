use crate::model::value::Value;
use vstd::prelude::*;

verus! {

/// A walk over the elements of an array, first to last. A value that is no
/// array has no elements.
pub struct ValueIter<'a> {
    value: &'a Value,
    index: usize,
}

impl<'a> ValueIter<'a> {
    /// The value that is walked over.
    pub closed spec fn subject(self) -> Value {
        *self.value
    }

    /// How many elements have been handed out.
    pub closed spec fn position(self) -> nat {
        self.index as nat
    }

    /// The elements that are still to come.
    pub open spec fn remaining(self) -> Seq<Value> {
        match self.subject() {
            Value::Array(items) => if self.position() <= items@.len() {
                items@.subrange(self.position() as int, items@.len() as int)
            } else {
                Seq::empty()
            },
            _ => Seq::empty(),
        }
    }

    /// A walk that starts at the first element.
    pub fn new(value: &'a Value) -> (iter: ValueIter<'a>)
        ensures
            iter.subject() == *value,
            iter.position() == 0,
    {
        ValueIter { value, index: 0 }
    }

    /// The next element, if one is left.
    pub fn next(&mut self) -> (item: Option<&'a Value>)
        ensures
            final(self).subject() == old(self).subject(),
            match item {
                Some(v) => old(self).remaining().len() > 0 && *v == old(self).remaining()[0]
                    && final(self).remaining() == old(self).remaining().drop_first()
                    && final(self).position() == old(self).position() + 1,
                None => old(self).remaining().len() == 0 && *final(self) == *old(self),
            },
    {
        match self.value {
            Value::Array(items) => {
                if self.index < items.len() {
                    let item = &items[self.index];
                    self.index += 1;
                    assert(self.remaining() =~= old(self).remaining().drop_first());
                    Some(item)
                } else {
                    None
                }
            },
            _ => None,
        }
    }
}

impl Value {
    /// A walk over the elements of the value.
    pub fn iter<'a>(&'a self) -> (iter: ValueIter<'a>)
        ensures
            iter.subject() == *self,
            iter.position() == 0,
    {
        ValueIter::new(self)
    }
}

} // verus!
