use crate::errors::{failure_of, ConfigError};
use crate::model::into::to_text;
use crate::model::value::{items_model, lemma_items_model, Tree, Value};
use vstd::prelude::*;
use vstd::string::*;

verus! {

/// Turns the shapes of typed data into values: one method for each shape
/// that data can describe itself in.
#[derive(Debug, Clone, Copy)]
pub struct ValueSerializer;

/// The mapping that holds one value under one key.
pub open spec fn single(key: Seq<char>, value: Tree) -> Tree {
    Tree::Mapping(Map::<Seq<char>, Tree>::empty().insert(key, value))
}

/// The array of the bytes given, each as an unsigned integer.
pub open spec fn bytes_tree(bytes: Seq<u8>) -> Tree {
    Tree::Array(Seq::new(bytes.len(), |i: int| Tree::UInteger(bytes[i] as u64)))
}

/// The mapping that holds one value under one key.
pub fn single_key(key: &str, value: Value) -> (v: Value)
    ensures
        v@ == single(key@, value@),
{
    let mut v = Value::new_map();
    let _ = v.set(key, value);
    v
}

impl ValueSerializer {
    /// A truth value.
    pub fn serialize_bool(self, v: bool) -> (r: Result<Value, ConfigError>)
        ensures
            r is Ok && r->Ok_0@ == Tree::Boolean(v),
    {
        Ok(Value::Boolean(v))
    }

    /// A signed integer of 8 bits.
    pub fn serialize_i8(self, v: i8) -> (r: Result<Value, ConfigError>)
        ensures
            r is Ok && r->Ok_0@ == Tree::Integer(v as i64),
    {
        Ok(Value::Integer(v as i64))
    }

    /// A signed integer of 16 bits.
    pub fn serialize_i16(self, v: i16) -> (r: Result<Value, ConfigError>)
        ensures
            r is Ok && r->Ok_0@ == Tree::Integer(v as i64),
    {
        Ok(Value::Integer(v as i64))
    }

    /// A signed integer of 32 bits.
    pub fn serialize_i32(self, v: i32) -> (r: Result<Value, ConfigError>)
        ensures
            r is Ok && r->Ok_0@ == Tree::Integer(v as i64),
    {
        Ok(Value::Integer(v as i64))
    }

    /// A signed integer of 64 bits.
    pub fn serialize_i64(self, v: i64) -> (r: Result<Value, ConfigError>)
        ensures
            r is Ok && r->Ok_0@ == Tree::Integer(v),
    {
        Ok(Value::Integer(v))
    }

    /// An unsigned integer of 8 bits.
    pub fn serialize_u8(self, v: u8) -> (r: Result<Value, ConfigError>)
        ensures
            r is Ok && r->Ok_0@ == Tree::UInteger(v as u64),
    {
        Ok(Value::UInteger(v as u64))
    }

    /// An unsigned integer of 16 bits.
    pub fn serialize_u16(self, v: u16) -> (r: Result<Value, ConfigError>)
        ensures
            r is Ok && r->Ok_0@ == Tree::UInteger(v as u64),
    {
        Ok(Value::UInteger(v as u64))
    }

    /// An unsigned integer of 32 bits.
    pub fn serialize_u32(self, v: u32) -> (r: Result<Value, ConfigError>)
        ensures
            r is Ok && r->Ok_0@ == Tree::UInteger(v as u64),
    {
        Ok(Value::UInteger(v as u64))
    }

    /// An unsigned integer of 64 bits.
    pub fn serialize_u64(self, v: u64) -> (r: Result<Value, ConfigError>)
        ensures
            r is Ok && r->Ok_0@ == Tree::UInteger(v),
    {
        Ok(Value::UInteger(v))
    }

    /// A number given by its IEEE 754 binary64 bit pattern.
    pub fn serialize_float(self, bits: u64) -> (r: Result<Value, ConfigError>)
        ensures
            r is Ok && r->Ok_0@ == Tree::Float(bits),
    {
        Ok(Value::Float(bits))
    }

    /// A character: the text that holds it alone.
    pub fn serialize_char(self, v: char) -> (r: Result<Value, ConfigError>)
        ensures
            r is Ok && r->Ok_0@ == Tree::String(seq![v]),
    {
        let mut chars: Vec<char> = Vec::new();
        chars.push(v);
        assert(chars@ =~= seq![v]);
        Ok(Value::String(crate::text::text_of(&chars)))
    }

    /// A text.
    pub fn serialize_str(self, v: &str) -> (r: Result<Value, ConfigError>)
        ensures
            r is Ok && r->Ok_0@ == Tree::String(v@),
    {
        Ok(Value::String(v.to_owned()))
    }

    /// Bytes: an array of unsigned integers, one for each byte.
    pub fn serialize_bytes(self, v: &[u8]) -> (r: Result<Value, ConfigError>)
        ensures
            r is Ok && r->Ok_0@ == bytes_tree(v@),
    {
        let mut items: Vec<Value> = Vec::new();
        let mut i: usize = 0;
        while i < v.len()
            invariant
                i <= v@.len(),
                items@.len() == i,
                forall|j: int| 0 <= j < i ==> (#[trigger] items@[j])@ == Tree::UInteger(v@[j] as u64),
            decreases v@.len() - i,
        {
            items.push(Value::UInteger(v[i] as u64));
            i += 1;
        }
        proof {
            lemma_items_model(items@);
            assert(items_model(items@) =~= bytes_tree(v@)->Array_0);
        }
        Ok(Value::Array(items))
    }

    /// An option without a value.
    pub fn serialize_none(self) -> (r: Result<Value, ConfigError>)
        ensures
            r is Ok && r->Ok_0@ == Tree::Null,
    {
        Ok(Value::Null)
    }

    /// The unit.
    pub fn serialize_unit(self) -> (r: Result<Value, ConfigError>)
        ensures
            r is Ok && r->Ok_0@ == Tree::Null,
    {
        self.serialize_none()
    }

    /// A structure without fields.
    pub fn serialize_unit_struct(self, _name: &'static str) -> (r: Result<Value, ConfigError>)
        ensures
            r is Ok && r->Ok_0@ == Tree::Null,
    {
        self.serialize_none()
    }

    /// A variant without a payload: its name.
    pub fn serialize_unit_variant(
        self,
        _name: &'static str,
        _variant_index: u32,
        variant: &'static str,
    ) -> (r: Result<Value, ConfigError>)
        ensures
            r is Ok && r->Ok_0@ == Tree::String(variant@),
    {
        self.serialize_str(variant)
    }

    /// A variant with one value as its payload, the value already turned:
    /// the mapping of the variant's name to the value.
    pub fn serialize_newtype_variant(
        self,
        _name: &'static str,
        _variant_index: u32,
        variant: &'static str,
        value: Value,
    ) -> (r: Result<Value, ConfigError>)
        ensures
            r is Ok && r->Ok_0@ == single(variant@, value@),
    {
        Ok(single_key(variant, value))
    }

    /// Starts a sequence.
    pub fn serialize_seq(self, len: Option<usize>) -> (r: Result<ValueSerSeq, ConfigError>)
        ensures
            r is Ok && r->Ok_0.seq@ == Tree::Array(Seq::empty()),
    {
        Ok(
            ValueSerSeq::new(
                match len {
                    Some(n) => n,
                    None => 0,
                },
            ),
        )
    }

    /// Starts a tuple.
    pub fn serialize_tuple(self, len: usize) -> (r: Result<ValueSerSeq, ConfigError>)
        ensures
            r is Ok && r->Ok_0.seq@ == Tree::Array(Seq::empty()),
    {
        self.serialize_seq(Some(len))
    }

    /// Starts a structure whose fields have no names.
    pub fn serialize_tuple_struct(self, _name: &'static str, len: usize) -> (r: Result<
        ValueSerSeq,
        ConfigError,
    >)
        ensures
            r is Ok && r->Ok_0.seq@ == Tree::Array(Seq::empty()),
    {
        self.serialize_seq(Some(len))
    }

    /// Starts a variant whose payload is a tuple.
    pub fn serialize_tuple_variant(
        self,
        _name: &'static str,
        _variant_index: u32,
        variant: &'static str,
        len: usize,
    ) -> (r: Result<ValueSerTupleVariant, ConfigError>)
        ensures
            r is Ok && r->Ok_0.seq@ == Tree::Array(Seq::empty()) && r->Ok_0.name@ == variant@,
    {
        Ok(ValueSerTupleVariant::new(variant.to_owned(), len))
    }

    /// Starts a mapping.
    pub fn serialize_map(self, _len: Option<usize>) -> (r: Result<ValueSerMap, ConfigError>)
        ensures
            r is Ok && r->Ok_0.map@ == Tree::Mapping(Map::empty()) && r->Ok_0.key is None,
    {
        Ok(ValueSerMap::new())
    }

    /// Starts a structure.
    pub fn serialize_struct(self, _name: &'static str, len: usize) -> (r: Result<
        ValueSerMap,
        ConfigError,
    >)
        ensures
            r is Ok && r->Ok_0.map@ == Tree::Mapping(Map::empty()) && r->Ok_0.key is None,
    {
        self.serialize_map(Some(len))
    }

    /// Starts a variant whose payload is a structure.
    pub fn serialize_struct_variant(
        self,
        _name: &'static str,
        _variant_index: u32,
        variant: &'static str,
        _len: usize,
    ) -> (r: Result<ValueSerStructVariant, ConfigError>)
        ensures
            r is Ok && r->Ok_0.map@ == Tree::Mapping(Map::empty()) && r->Ok_0.name@ == variant@,
    {
        Ok(ValueSerStructVariant::new(variant.to_owned()))
    }
}

/// A sequence, a tuple or a structure without field names in the making.
#[derive(Debug)]
pub struct ValueSerSeq {
    pub seq: Value,
}

impl ValueSerSeq {
    /// An empty sequence with room for `size` elements.
    pub fn new(size: usize) -> (s: ValueSerSeq)
        ensures
            s.seq@ == Tree::Array(Seq::empty()),
    {
        ValueSerSeq { seq: Value::with_array_capacity(size) }
    }

    /// Appends an element, already turned into a value.
    pub fn serialize_element(&mut self, value: Value) -> (r: Result<(), ConfigError>)
        ensures
            match r {
                Ok(_) => old(self).seq@ is Array && final(self).seq@ == Tree::Array(
                    old(self).seq@->Array_0.push(value@),
                ),
                Err(e) => !(old(self).seq@ is Array) && e == ConfigError::NotArrayValue && *final(self) == *old(self),
            },
    {
        match self.seq.push(value) {
            Ok(_) => Ok(()),
            Err(_) => Err(ConfigError::NotArrayValue),
        }
    }

    /// Appends a field, already turned into a value.
    pub fn serialize_field(&mut self, value: Value) -> (r: Result<(), ConfigError>)
        ensures
            match r {
                Ok(_) => old(self).seq@ is Array && final(self).seq@ == Tree::Array(
                    old(self).seq@->Array_0.push(value@),
                ),
                Err(e) => !(old(self).seq@ is Array) && e == ConfigError::NotArrayValue && *final(self) == *old(self),
            },
    {
        self.serialize_element(value)
    }

    /// The sequence made.
    pub fn end(self) -> (r: Result<Value, ConfigError>)
        ensures
            r == Ok::<Value, ConfigError>(self.seq),
    {
        Ok(self.seq)
    }
}

/// A variant with a tuple as its payload in the making.
#[derive(Debug)]
pub struct ValueSerTupleVariant {
    pub seq: Value,
    pub name: String,
}

impl ValueSerTupleVariant {
    /// An empty payload for the variant named, with room for `size` fields.
    pub fn new(name: String, size: usize) -> (s: ValueSerTupleVariant)
        ensures
            s.seq@ == Tree::Array(Seq::empty()),
            s.name == name,
    {
        ValueSerTupleVariant { seq: Value::with_array_capacity(size), name }
    }

    /// Appends a field, already turned into a value.
    pub fn serialize_field(&mut self, value: Value) -> (r: Result<(), ConfigError>)
        ensures
            final(self).name == old(self).name,
            match r {
                Ok(_) => old(self).seq@ is Array && final(self).seq@ == Tree::Array(
                    old(self).seq@->Array_0.push(value@),
                ),
                Err(e) => !(old(self).seq@ is Array) && e == ConfigError::NotArrayValue && final(self).seq == old(self).seq,
            },
    {
        match self.seq.push(value) {
            Ok(_) => Ok(()),
            Err(_) => Err(ConfigError::NotArrayValue),
        }
    }

    /// The variant made: the mapping of its name to its payload.
    pub fn end(self) -> (r: Result<Value, ConfigError>)
        ensures
            r is Ok && r->Ok_0@ == single(self.name@, self.seq@),
    {
        Ok(single_key(self.name.as_str(), self.seq))
    }
}

/// A mapping or a structure in the making.
#[derive(Debug)]
pub struct ValueSerMap {
    pub map: Value,
    pub key: Option<String>,
}

impl ValueSerMap {
    /// An empty mapping, with no key waiting for its value.
    pub fn new() -> (s: ValueSerMap)
        ensures
            s.map@ == Tree::Mapping(Map::empty()),
            s.key is None,
    {
        ValueSerMap { map: Value::new_map(), key: None }
    }

    /// Takes a key, already turned into a value, to wait for its value. The
    /// key must read as a text.
    pub fn serialize_key(&mut self, key: Value) -> (r: Result<(), ConfigError>)
        ensures
            final(self).map == old(self).map,
            match to_text(key@) {
                Ok(text) => r is Ok && final(self).key is Some && final(self).key->Some_0@ == text,
                Err(f) => r is Err && r->Err_0@ == failure_of(f) && final(self).key == old(self).key,
            },
    {
        match key.try_into_string() {
            Ok(text) => {
                self.key = Some(text);
                Ok(())
            },
            Err(e) => Err(ConfigError::from(e)),
        }
    }

    /// Puts a value, already turned, under the key that waits for it.
    pub fn serialize_value(&mut self, value: Value) -> (r: Result<(), ConfigError>)
        requires
            old(self).key is Some,
        ensures
            final(self).key is None,
            match r {
                Ok(_) => old(self).map@ is Mapping && final(self).map@ == Tree::Mapping(
                    old(self).map@->Mapping_0.insert(old(self).key->Some_0@, value@),
                ),
                Err(e) => !(old(self).map@ is Mapping) && e == ConfigError::NotMapValue && final(self).map == old(self).map,
            },
    {
        let key = match self.key.take() {
            Some(key) => key,
            None => String::new(),
        };
        match self.map.set(key.as_str(), value) {
            Ok(_) => Ok(()),
            Err(_) => Err(ConfigError::NotMapValue),
        }
    }

    /// Puts a value, already turned, under the name of a field.
    pub fn serialize_field(&mut self, key: &'static str, value: Value) -> (r: Result<
        (),
        ConfigError,
    >)
        ensures
            final(self).key == old(self).key,
            match r {
                Ok(_) => old(self).map@ is Mapping && final(self).map@ == Tree::Mapping(
                    old(self).map@->Mapping_0.insert(key@, value@),
                ),
                Err(e) => !(old(self).map@ is Mapping) && e == ConfigError::NotMapValue && final(self).map == old(self).map,
            },
    {
        match self.map.set(key, value) {
            Ok(_) => Ok(()),
            Err(_) => Err(ConfigError::NotMapValue),
        }
    }

    /// The mapping made.
    pub fn end(self) -> (r: Result<Value, ConfigError>)
        ensures
            r == Ok::<Value, ConfigError>(self.map),
    {
        Ok(self.map)
    }
}

/// A variant with a structure as its payload in the making.
#[derive(Debug)]
pub struct ValueSerStructVariant {
    pub map: Value,
    pub name: String,
}

impl ValueSerStructVariant {
    /// An empty payload for the variant named.
    pub fn new(name: String) -> (s: ValueSerStructVariant)
        ensures
            s.map@ == Tree::Mapping(Map::empty()),
            s.name == name,
    {
        ValueSerStructVariant { map: Value::new_map(), name }
    }

    /// Puts a value, already turned, under the name of a field.
    pub fn serialize_field(&mut self, key: &'static str, value: Value) -> (r: Result<
        (),
        ConfigError,
    >)
        ensures
            final(self).name == old(self).name,
            match r {
                Ok(_) => old(self).map@ is Mapping && final(self).map@ == Tree::Mapping(
                    old(self).map@->Mapping_0.insert(key@, value@),
                ),
                Err(e) => !(old(self).map@ is Mapping) && e == ConfigError::NotMapValue && final(self).map == old(self).map,
            },
    {
        match self.map.set(key, value) {
            Ok(_) => Ok(()),
            Err(_) => Err(ConfigError::NotMapValue),
        }
    }

    /// The variant made: the mapping of its name to its payload.
    pub fn end(self) -> (r: Result<Value, ConfigError>)
        ensures
            r is Ok && r->Ok_0@ == single(self.name@, self.map@),
    {
        Ok(single_key(self.name.as_str(), self.map))
    }
}

} // verus!
