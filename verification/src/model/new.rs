use crate::model::value::{Tree, Value, ValueMap};
use vstd::prelude::*;

verus! {

impl Value {
    /// The value that holds nothing.
    pub fn new() -> (v: Value)
        ensures
            v@ == Tree::Null,
    {
        Value::Null
    }

    /// A mapping without keys.
    pub fn new_map() -> (v: Value)
        ensures
            v@ == Tree::Mapping(Map::empty()),
    {
        Value::Mapping(ValueMap::new())
    }

    /// An array without elements.
    pub fn new_array() -> (v: Value)
        ensures
            v@ == Tree::Array(Seq::empty()),
    {
        let v = Value::Array(Vec::new());
        assert(v@->Array_0 =~= Seq::<Tree>::empty());
        v
    }

    /// An array without elements, with room for `size` of them.
    pub fn with_array_capacity(size: usize) -> (v: Value)
        ensures
            v@ == Tree::Array(Seq::empty()),
    {
        let v = Value::Array(Vec::with_capacity(size));
        assert(v@->Array_0 =~= Seq::<Tree>::empty());
        v
    }
}

} // verus!
