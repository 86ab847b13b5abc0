use crate::model::value::{lemma_items_model, Tree, Value, ValueMap};
use vstd::prelude::*;
use vstd::std_specs::convert::{FromSpecImpl, IntoSpec};
use vstd::string::*;

verus! {

impl Default for Value {
    fn default() -> (v: Value)
        ensures
            v == Value::Null,
    {
        Value::Null
    }
}

impl From<i8> for Value {
    fn from(value: i8) -> (v: Value) {
        Value::Integer(value as i64)
    }
}

impl FromSpecImpl<i8> for Value {
    open spec fn obeys_from_spec() -> bool {
        true
    }

    open spec fn from_spec(value: i8) -> Value {
        Value::Integer(value as i64)
    }
}

impl From<i16> for Value {
    fn from(value: i16) -> (v: Value) {
        Value::Integer(value as i64)
    }
}

impl FromSpecImpl<i16> for Value {
    open spec fn obeys_from_spec() -> bool {
        true
    }

    open spec fn from_spec(value: i16) -> Value {
        Value::Integer(value as i64)
    }
}

impl From<i32> for Value {
    fn from(value: i32) -> (v: Value) {
        Value::Integer(value as i64)
    }
}

impl FromSpecImpl<i32> for Value {
    open spec fn obeys_from_spec() -> bool {
        true
    }

    open spec fn from_spec(value: i32) -> Value {
        Value::Integer(value as i64)
    }
}

impl From<i64> for Value {
    fn from(value: i64) -> (v: Value) {
        Value::Integer(value)
    }
}

impl FromSpecImpl<i64> for Value {
    open spec fn obeys_from_spec() -> bool {
        true
    }

    open spec fn from_spec(value: i64) -> Value {
        Value::Integer(value)
    }
}

impl From<i128> for Value {
    fn from(value: i128) -> (v: Value) {
        Value::LongInteger(value)
    }
}

impl FromSpecImpl<i128> for Value {
    open spec fn obeys_from_spec() -> bool {
        true
    }

    open spec fn from_spec(value: i128) -> Value {
        Value::LongInteger(value)
    }
}

impl From<u8> for Value {
    fn from(value: u8) -> (v: Value) {
        Value::UInteger(value as u64)
    }
}

impl FromSpecImpl<u8> for Value {
    open spec fn obeys_from_spec() -> bool {
        true
    }

    open spec fn from_spec(value: u8) -> Value {
        Value::UInteger(value as u64)
    }
}

impl From<u16> for Value {
    fn from(value: u16) -> (v: Value) {
        Value::UInteger(value as u64)
    }
}

impl FromSpecImpl<u16> for Value {
    open spec fn obeys_from_spec() -> bool {
        true
    }

    open spec fn from_spec(value: u16) -> Value {
        Value::UInteger(value as u64)
    }
}

impl From<u32> for Value {
    fn from(value: u32) -> (v: Value) {
        Value::UInteger(value as u64)
    }
}

impl FromSpecImpl<u32> for Value {
    open spec fn obeys_from_spec() -> bool {
        true
    }

    open spec fn from_spec(value: u32) -> Value {
        Value::UInteger(value as u64)
    }
}

impl From<u64> for Value {
    fn from(value: u64) -> (v: Value) {
        Value::UInteger(value)
    }
}

impl FromSpecImpl<u64> for Value {
    open spec fn obeys_from_spec() -> bool {
        true
    }

    open spec fn from_spec(value: u64) -> Value {
        Value::UInteger(value)
    }
}

impl From<u128> for Value {
    fn from(value: u128) -> (v: Value) {
        Value::ULongInteger(value)
    }
}

impl FromSpecImpl<u128> for Value {
    open spec fn obeys_from_spec() -> bool {
        true
    }

    open spec fn from_spec(value: u128) -> Value {
        Value::ULongInteger(value)
    }
}

impl From<bool> for Value {
    fn from(value: bool) -> (v: Value) {
        Value::Boolean(value)
    }
}

impl FromSpecImpl<bool> for Value {
    open spec fn obeys_from_spec() -> bool {
        true
    }

    open spec fn from_spec(value: bool) -> Value {
        Value::Boolean(value)
    }
}

impl From<String> for Value {
    fn from(value: String) -> (v: Value) {
        Value::String(value)
    }
}

impl FromSpecImpl<String> for Value {
    open spec fn obeys_from_spec() -> bool {
        true
    }

    open spec fn from_spec(value: String) -> Value {
        Value::String(value)
    }
}

impl From<&str> for Value {
    fn from(value: &str) -> (v: Value)
        ensures
            v@ == Tree::String(value@),
    {
        Value::String(value.to_owned())
    }
}

impl FromSpecImpl<&str> for Value {
    open spec fn obeys_from_spec() -> bool {
        false
    }

    open spec fn from_spec(value: &str) -> Value {
        arbitrary()
    }
}

impl From<ValueMap> for Value {
    fn from(value: ValueMap) -> (v: Value) {
        Value::Mapping(value)
    }
}

impl FromSpecImpl<ValueMap> for Value {
    open spec fn obeys_from_spec() -> bool {
        true
    }

    open spec fn from_spec(value: ValueMap) -> Value {
        Value::Mapping(value)
    }
}

impl<T: Into<Value>> From<Option<T>> for Value {
    fn from(value: Option<T>) -> (v: Value)
        ensures
            value is None ==> v == Value::Null,
            value is Some && T::obeys_into_spec() ==> v == value->Some_0.into_spec(),
    {
        match value {
            Some(inner) => inner.into(),
            None => Value::Null,
        }
    }
}

impl<T: Into<Value>> FromSpecImpl<Option<T>> for Value {
    open spec fn obeys_from_spec() -> bool {
        T::obeys_into_spec()
    }

    open spec fn from_spec(value: Option<T>) -> Value {
        match value {
            Some(inner) => inner.into_spec(),
            None => Value::Null,
        }
    }
}

impl<T: Into<Value>> From<Vec<T>> for Value {
    fn from(values: Vec<T>) -> (v: Value)
        ensures
            v@ is Array,
            v@->Array_0.len() == values@.len(),
            T::obeys_into_spec() ==> forall|i: int|
                0 <= i < values@.len() ==> v@->Array_0[i] == (#[trigger] values@[i]).into_spec()@,
    {
        let mut rest = values;
        let mut turned: Vec<Value> = Vec::new();
        while rest.len() > 0
            invariant
                rest@.len() + turned@.len() == values@.len(),
                rest@ == values@.take(rest@.len() as int),
                T::obeys_into_spec() ==> forall|j: int|
                    0 <= j < turned@.len() ==> (#[trigger] turned@[j]) == values@[values@.len() - 1
                        - j].into_spec(),
            decreases rest@.len(),
        {
            let last = rest.pop().unwrap();
            turned.push(last.into());
        }
        let mut items: Vec<Value> = Vec::new();
        while turned.len() > 0
            invariant
                items@.len() + turned@.len() == values@.len(),
                T::obeys_into_spec() ==> forall|j: int|
                    0 <= j < turned@.len() ==> (#[trigger] turned@[j]) == values@[values@.len() - 1
                        - j].into_spec(),
                T::obeys_into_spec() ==> forall|j: int|
                    0 <= j < items@.len() ==> (#[trigger] items@[j]) == values@[j].into_spec(),
            decreases turned@.len(),
        {
            let next = turned.pop().unwrap();
            items.push(next);
        }
        proof {
            lemma_items_model(items@);
        }
        Value::Array(items)
    }
}

impl<T: Into<Value>> FromSpecImpl<Vec<T>> for Value {
    open spec fn obeys_from_spec() -> bool {
        false
    }

    open spec fn from_spec(values: Vec<T>) -> Value {
        arbitrary()
    }
}

} // verus!
