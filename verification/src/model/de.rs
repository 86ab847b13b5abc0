use crate::model::value::{items_model, Tree, Value, ValueMap};
use vstd::prelude::*;

verus! {

/// What a value shows of itself to whoever builds typed data from it: its
/// own kind, with the most specific number it holds.
#[derive(Debug)]
pub enum Visit {
    Unit,
    Bool(bool),
    I64(i64),
    I128(i128),
    U64(u64),
    U128(u128),
    /// A number by its IEEE 754 binary64 bit pattern.
    Float(u64),
    Str(String),
    Elements(Vec<Value>),
    Entries(ValueMap),
}

/// A value that has not the shape asked for, with the name of that shape.
#[derive(Debug)]
pub struct Misfit {
    pub target: &'static str,
    pub value: Value,
}

impl View for Visit {
    type V = Tree;

    open spec fn view(&self) -> Tree {
        match self {
            Visit::Unit => Tree::Null,
            Visit::Bool(b) => Tree::Boolean(*b),
            Visit::I64(v) => Tree::Integer(*v),
            Visit::I128(v) => Tree::LongInteger(*v),
            Visit::U64(v) => Tree::UInteger(*v),
            Visit::U128(v) => Tree::ULongInteger(*v),
            Visit::Float(bits) => Tree::Float(*bits),
            Visit::Str(s) => Tree::String(s@),
            Visit::Elements(items) => Tree::Array(items_model(items@)),
            Visit::Entries(m) => Tree::Mapping(m@),
        }
    }
}

impl Value {
    /// Shows the value as what it is.
    pub fn deserialize_any(self) -> (visit: Visit)
        ensures
            visit@ == self@,
    {
        match self {
            Value::Null => Visit::Unit,
            Value::Boolean(b) => Visit::Bool(b),
            Value::Integer(v) => Visit::I64(v),
            Value::LongInteger(v) => Visit::I128(v),
            Value::UInteger(v) => Visit::U64(v),
            Value::ULongInteger(v) => Visit::U128(v),
            Value::Float(bits) => Visit::Float(bits),
            Value::String(s) => Visit::Str(s),
            Value::Array(items) => Visit::Elements(items),
            Value::Mapping(m) => Visit::Entries(m),
        }
    }

    /// The value as an option: nothing for `Null`, else the value itself.
    pub fn deserialize_option(self) -> (inner: Option<Value>)
        ensures
            match inner {
                Some(v) => !(self@ is Null) && v == self,
                None => self@ is Null,
            },
    {
        match self {
            Value::Null => None,
            other => Some(other),
        }
    }

    /// The value as the unit: only `Null` is.
    pub fn deserialize_unit(self) -> (r: Result<(), Misfit>)
        ensures
            match r {
                Ok(_) => self@ is Null,
                Err(misfit) => !(self@ is Null) && misfit.value == self && misfit.target@ == "none"@,
            },
    {
        match self {
            Value::Null => Ok(()),
            other => Err(Misfit { target: "none", value: other }),
        }
    }

    /// The value as a structure without fields: only `Null` is.
    pub fn deserialize_unit_struct(self, _name: &'static str) -> (r: Result<(), Misfit>)
        ensures
            match r {
                Ok(_) => self@ is Null,
                Err(misfit) => !(self@ is Null) && misfit.value == self && misfit.target@ == "none"@,
            },
    {
        self.deserialize_unit()
    }

    /// The elements of the value, first to last: only an array has them.
    pub fn deserialize_seq(self) -> (r: Result<Vec<Value>, Misfit>)
        ensures
            match r {
                Ok(items) => self@ == Tree::Array(items_model(items@)),
                Err(misfit) => !(self@ is Array) && misfit.value == self && misfit.target@
                    == "array"@,
            },
    {
        match self {
            Value::Array(items) => Ok(items),
            other => Err(Misfit { target: "array", value: other }),
        }
    }

    /// The elements of the value as the fields of a tuple.
    pub fn deserialize_tuple(self, _len: usize) -> (r: Result<Vec<Value>, Misfit>)
        ensures
            match r {
                Ok(items) => self@ == Tree::Array(items_model(items@)),
                Err(misfit) => !(self@ is Array) && misfit.value == self && misfit.target@
                    == "array"@,
            },
    {
        self.deserialize_seq()
    }

    /// The elements of the value as the fields of a structure without
    /// field names.
    pub fn deserialize_tuple_struct(self, _name: &'static str, _len: usize) -> (r: Result<
        Vec<Value>,
        Misfit,
    >)
        ensures
            match r {
                Ok(items) => self@ == Tree::Array(items_model(items@)),
                Err(misfit) => !(self@ is Array) && misfit.value == self && misfit.target@
                    == "array"@,
            },
    {
        self.deserialize_seq()
    }

    /// The entries of the value: only a mapping has them.
    pub fn deserialize_map(self) -> (r: Result<ValueMap, Misfit>)
        ensures
            match r {
                Ok(m) => self@ == Tree::Mapping(m@),
                Err(misfit) => !(self@ is Mapping) && misfit.value == self && misfit.target@
                    == "map"@,
            },
    {
        match self {
            Value::Mapping(m) => Ok(m),
            other => Err(Misfit { target: "map", value: other }),
        }
    }

    /// The entries of the value as the fields of a structure.
    pub fn deserialize_struct(self, _name: &'static str) -> (r: Result<ValueMap, Misfit>)
        ensures
            match r {
                Ok(m) => self@ == Tree::Mapping(m@),
                Err(misfit) => !(self@ is Mapping) && misfit.value == self && misfit.target@
                    == "map"@,
            },
    {
        self.deserialize_map()
    }
}

} // verus!
