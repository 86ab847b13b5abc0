use crate::model::errors::ModelError;
use crate::model::float::{float_same, same_float};
use crate::text::{decimal_text, text_eq};
use vstd::prelude::*;
use vstd::string::*;

verus! {

/// Mathematical model of a configuration value: what a `Value` denotes,
/// with texts as character sequences and mappings as finite maps.
pub enum Tree {
    Null,
    Boolean(bool),
    Integer(i64),
    LongInteger(i128),
    UInteger(u64),
    ULongInteger(u128),
    /// The IEEE 754 binary64 bit pattern of the number.
    Float(u64),
    String(Seq<char>),
    Array(Seq<Tree>),
    Mapping(Map<Seq<char>, Tree>),
}

/// A dynamically typed configuration value.
///
/// `Float` holds the IEEE 754 binary64 bit pattern of the number, so that
/// every payload is an integer, a text or a container of values.
#[derive(Debug)]
pub enum Value {
    Null,
    Boolean(bool),
    Integer(i64),
    LongInteger(i128),
    UInteger(u64),
    ULongInteger(u128),
    Float(u64),
    String(String),
    Array(Vec<Value>),
    Mapping(ValueMap),
}

/// The payload of `Value::Mapping`: entries in insertion order, no key twice.
#[derive(Debug)]
pub struct ValueMap {
    entries: Vec<(String, Value)>,
}

/// No two entries share a key.
pub open spec fn keys_distinct(entries: Seq<(String, Value)>) -> bool {
    forall|i: int, j: int| 0 <= i < j < entries.len() ==> entries[i].0@ != entries[j].0@
}

/// The finite map that a list of entries denotes; of two entries with one
/// key the later one counts.
pub open spec fn entries_model(entries: Seq<(String, Value)>) -> Map<Seq<char>, Tree>
    decreases entries, 0nat,
{
    if entries.len() == 0 {
        Map::empty()
    } else {
        entries_model(entries.drop_last()).insert(entries.last().0@, entries.last().1@)
    }
}

/// The keys of a list of entries, in the order of the list.
pub open spec fn entries_keys(entries: Seq<(String, Value)>) -> Seq<Seq<char>> {
    Seq::new(entries.len(), |i: int| entries[i].0@)
}

impl View for ValueMap {
    type V = Map<Seq<char>, Tree>;

    closed spec fn view(&self) -> Map<Seq<char>, Tree>
        decreases self, 1nat,
    {
        entries_model(self.entries@)
    }
}

impl View for Value {
    type V = Tree;

    open spec fn view(&self) -> Tree
        decreases self, 0nat,
    {
        match self {
            Value::Null => Tree::Null,
            Value::Boolean(b) => Tree::Boolean(*b),
            Value::Integer(i) => Tree::Integer(*i),
            Value::LongInteger(i) => Tree::LongInteger(*i),
            Value::UInteger(i) => Tree::UInteger(*i),
            Value::ULongInteger(i) => Tree::ULongInteger(*i),
            Value::Float(bits) => Tree::Float(*bits),
            Value::String(s) => Tree::String(s@),
            Value::Array(items) => Tree::Array(items_model(items@)),
            Value::Mapping(m) => Tree::Mapping(m@),
        }
    }
}

/// The models of a list of values, one for one.
pub open spec fn items_model(items: Seq<Value>) -> Seq<Tree>
    decreases items, 2nat,
{
    Seq::new(
        items.len(),
        |i: int|
            if 0 <= i < items.len() {
                items[i]@
            } else {
                Tree::Null
            },
    )
}

/// `items_model` keeps the length and takes the model of each element.
pub proof fn lemma_items_model(items: Seq<Value>)
    ensures
        items_model(items).len() == items.len(),
        forall|i: int| 0 <= i < items.len() ==> #[trigger] items_model(items)[i] == items[i]@,
{
}

/// The defining equation of `entries_model`, one step.
pub proof fn lemma_model_step(entries: Seq<(String, Value)>)
    ensures
        entries.len() == 0 ==> entries_model(entries) == Map::<Seq<char>, Tree>::empty(),
        entries.len() > 0 ==> entries_model(entries) == entries_model(entries.drop_last()).insert(
            entries.last().0@,
            entries.last().1@,
        ),
{
}

/// A key is in the model exactly when some entry carries it.
pub proof fn lemma_model_dom(entries: Seq<(String, Value)>, key: Seq<char>)
    ensures
        entries_model(entries).dom().finite(),
        entries_model(entries).contains_key(key) <==> exists|i: int|
            0 <= i < entries.len() && #[trigger] entries[i].0@ == key,
    decreases entries.len(),
{
    lemma_model_step(entries);
    if entries.len() > 0 {
        let front = entries.drop_last();
        lemma_model_dom(front, key);
        if entries_model(entries).contains_key(key) {
            if entries.last().0@ == key {
                assert(entries[entries.len() - 1].0@ == key);
            } else {
                let i = choose|i: int| 0 <= i < front.len() && #[trigger] front[i].0@ == key;
                assert(entries[i].0@ == key);
            }
        }
        if exists|i: int| 0 <= i < entries.len() && #[trigger] entries[i].0@ == key {
            let i = choose|i: int| 0 <= i < entries.len() && #[trigger] entries[i].0@ == key;
            if i < front.len() {
                assert(front[i].0@ == key);
            }
        }
    }
}

/// With distinct keys, each entry's value is what the model holds at its key.
pub proof fn lemma_model_at(entries: Seq<(String, Value)>, i: int)
    requires
        keys_distinct(entries),
        0 <= i < entries.len(),
    ensures
        entries_model(entries).contains_key(entries[i].0@),
        entries_model(entries)[entries[i].0@] == entries[i].1@,
    decreases entries.len(),
{
    let front = entries.drop_last();
    lemma_model_step(entries);
    if i < entries.len() - 1 {
        lemma_model_at(front, i);
    }
}

/// With distinct keys, the model has as many keys as the list has entries.
pub proof fn lemma_model_len(entries: Seq<(String, Value)>)
    requires
        keys_distinct(entries),
    ensures
        entries_model(entries).dom().finite(),
        entries_model(entries).len() == entries.len(),
    decreases entries.len(),
{
    lemma_model_dom(entries, Seq::empty());
    lemma_model_step(entries);
    if entries.len() > 0 {
        let front = entries.drop_last();
        lemma_model_len(front);
        lemma_model_dom(front, entries.last().0@);
        if entries_model(front).contains_key(entries.last().0@) {
            let i = choose|i: int| 0 <= i < front.len() && #[trigger] front[i].0@ == entries.last().0@;
            assert(entries[i].0@ == entries[entries.len() - 1].0@);
        }
    }
}

/// With distinct keys, putting a new value under the key of entry `i`
/// is an insertion into the model, and the keys stay distinct.
pub proof fn lemma_model_update(entries: Seq<(String, Value)>, i: int, entry: (String, Value))
    requires
        keys_distinct(entries),
        0 <= i < entries.len(),
        entry.0@ == entries[i].0@,
    ensures
        keys_distinct(entries.update(i, entry)),
        entries_model(entries.update(i, entry)) == entries_model(entries).insert(
            entry.0@,
            entry.1@,
        ),
    decreases entries.len(),
{
    let next = entries.update(i, entry);
    let front = entries.drop_last();
    lemma_model_step(entries);
    lemma_model_step(next);
    if i == entries.len() - 1 {
        assert(next.drop_last() =~= front);
        assert(entries_model(next) =~= entries_model(entries).insert(entry.0@, entry.1@));
    } else {
        lemma_model_update(front, i, entry);
        assert(next.drop_last() =~= front.update(i, entry));
        assert(entries.last().0@ != entry.0@);
        assert(entries_model(next) =~= entries_model(entries).insert(entry.0@, entry.1@));
    }
}

/// Lists that agree entry by entry, in key text and in value model,
/// denote the same map.
pub proof fn lemma_model_same(a: Seq<(String, Value)>, b: Seq<(String, Value)>)
    requires
        a.len() == b.len(),
        forall|j: int| 0 <= j < a.len() ==> (#[trigger] a[j]).0@ == b[j].0@ && a[j].1@ == b[j].1@,
    ensures
        entries_model(a) == entries_model(b),
        keys_distinct(b) ==> keys_distinct(a),
    decreases a.len(),
{
    lemma_model_step(a);
    lemma_model_step(b);
    if a.len() > 0 {
        lemma_model_same(a.drop_last(), b.drop_last());
    }
    if keys_distinct(b) {
        assert forall|i: int, j: int| 0 <= i < j < a.len() implies a[i].0@ != a[j].0@ by {
            assert(a[i].0@ == b[i].0@);
            assert(a[j].0@ == b[j].0@);
        }
    }
}

impl ValueMap {
    #[verifier::type_invariant]
    spec fn distinct(self) -> bool {
        keys_distinct(self.entries@)
    }

    /// The entries in the order in which their keys were first set.
    pub closed spec fn entries(self) -> Seq<(String, Value)> {
        self.entries@
    }

    /// The keys in the order in which they were first set.
    pub closed spec fn keys(self) -> Seq<Seq<char>> {
        entries_keys(self.entries@)
    }

    /// The model of the value that stands at a position of `keys`.
    pub closed spec fn tree_at(self, i: int) -> Tree {
        self.entries@[i].1@
    }

    /// An empty mapping.
    pub fn new() -> (m: ValueMap)
        ensures
            m@ == Map::<Seq<char>, Tree>::empty(),
            m.keys() == Seq::<Seq<char>>::empty(),
    {
        let m = ValueMap { entries: Vec::new() };
        proof {
            lemma_model_step(m.entries@);
        }
        assert(m.keys() =~= Seq::<Seq<char>>::empty());
        m
    }

    /// The mapping that a list of entries denotes. Of two entries with one
    /// key the later one counts, at the place of the first.
    pub fn from_entries(entries: Vec<(String, Value)>) -> (m: ValueMap)
        ensures
            m@ == entries_model(entries@),
    {
        let mut m = ValueMap::new();
        let mut rest = entries;
        let mut turned: Vec<(String, Value)> = Vec::new();
        while rest.len() > 0
            invariant
                rest@.len() + turned@.len() == entries@.len(),
                rest@ == entries@.take(rest@.len() as int),
                forall|j: int|
                    0 <= j < turned@.len() ==> (#[trigger] turned@[j]) == entries@[entries@.len()
                        - 1 - j],
            decreases rest@.len(),
        {
            let last = rest.pop().unwrap();
            turned.push(last);
        }
        let ghost done: int = 0;
        proof {
            lemma_model_step(entries@.take(0));
        }
        while turned.len() > 0
            invariant
                0 <= done,
                done + turned@.len() == entries@.len(),
                forall|j: int|
                    0 <= j < turned@.len() ==> (#[trigger] turned@[j]) == entries@[entries@.len()
                        - 1 - j],
                m@ == entries_model(entries@.take(done)),
            decreases turned@.len(),
        {
            let entry = turned.pop().unwrap();
            proof {
                assert(entry == entries@[done]);
                assert(entries@.take(done + 1).drop_last() =~= entries@.take(done));
                lemma_model_step(entries@.take(done + 1));
            }
            m.insert(entry.0, entry.1);
            proof {
                done = done + 1;
            }
        }
        assert(entries@.take(done) =~= entries@);
        m
    }

    /// The entries of the mapping, in the order of `keys`.
    pub fn into_entries(self) -> (entries: Vec<(String, Value)>)
        ensures
            entries_model(entries@) == self@,
            entries_keys(entries@) == self.keys(),
            keys_distinct(entries@),
    {
        proof {
            use_type_invariant(&self);
        }
        self.entries
    }

    /// The number of keys.
    pub fn len(&self) -> (n: usize)
        ensures
            n == self@.len(),
            n == self.keys().len(),
            n == self.entries().len(),
            self@.dom().finite(),
            self.keys().no_duplicates(),
            forall|k: Seq<char>| self@.contains_key(k) <==> self.keys().contains(k),
            forall|i: int| 0 <= i < n ==> self@[#[trigger] self.keys()[i]] == self.tree_at(i),
    {
        proof {
            use_type_invariant(self);
            lemma_model_len(self.entries@);
            assert forall|k: Seq<char>| self@.contains_key(k) <==> self.keys().contains(k) by {
                lemma_model_dom(self.entries@, k);
                if self.keys().contains(k) {
                    let i = choose|i: int| 0 <= i < self.keys().len() && self.keys()[i] == k;
                    assert(self.entries@[i].0@ == k);
                }
                if self@.contains_key(k) {
                    let i = choose|i: int|
                        0 <= i < self.entries@.len() && #[trigger] self.entries@[i].0@ == k;
                    assert(self.keys()[i] == k);
                }
            }
            assert forall|i: int| 0 <= i < self.entries@.len() implies self@[#[trigger] self.keys()[i]]
                == self.tree_at(i) by {
                lemma_model_at(self.entries@, i);
            }
        }
        self.entries.len()
    }

    /// Where a key stands in `keys`, if it is there.
    pub fn position(&self, key: &str) -> (at: Option<usize>)
        ensures
            match at {
                Some(i) => i < self.keys().len() && self.keys()[i as int] == key@,
                None => !self@.contains_key(key@),
            },
    {
        let mut i: usize = 0;
        while i < self.entries.len()
            invariant
                i <= self.entries@.len(),
                forall|j: int| 0 <= j < i ==> self.entries@[j].0@ != key@,
            decreases self.entries@.len() - i,
        {
            if text_eq(self.entries[i].0.as_str(), key) {
                return Some(i);
            }
            i += 1;
        }
        proof {
            lemma_model_dom(self.entries@, key@);
        }
        None
    }

    /// The key at a position of `keys`.
    pub fn key_at(&self, i: usize) -> (key: &String)
        requires
            i < self.keys().len(),
        ensures
            key@ == self.keys()[i as int],
            *key == self.entries()[i as int].0,
    {
        &self.entries[i].0
    }

    /// The value at a position of `keys`.
    pub fn value_at(&self, i: usize) -> (value: &Value)
        requires
            i < self.keys().len(),
        ensures
            value@ == self.tree_at(i as int),
            self@.contains_key(self.keys()[i as int]),
            self@[self.keys()[i as int]] == value@,
    {
        proof {
            use_type_invariant(self);
            lemma_model_at(self.entries@, i as int);
        }
        &self.entries[i].1
    }

    /// The value of the entry at a position, for a walk over the entries.
    pub fn entry_at(&self, i: usize) -> (value: &Value)
        requires
            i < self.entries().len(),
        ensures
            *value == self.entries()[i as int].1,
    {
        &self.entries[i].1
    }

    /// The value under a key, if the key is there.
    pub fn get(&self, key: &str) -> (found: Option<&Value>)
        ensures
            match found {
                Some(value) => self@.contains_key(key@) && self@[key@] == value@,
                None => !self@.contains_key(key@),
            },
    {
        match self.position(key) {
            Some(i) => Some(self.value_at(i)),
            None => None,
        }
    }

    /// Puts a value under a key; a value that stood there is replaced and
    /// the key keeps its place, a new key goes last.
    pub fn insert(&mut self, key: String, value: Value)
        ensures
            final(self)@ == old(self)@.insert(key@, value@),
            final(self).keys() == if old(self)@.contains_key(key@) {
                old(self).keys()
            } else {
                old(self).keys().push(key@)
            },
    {
        proof {
            use_type_invariant(&*self);
        }
        let at = self.position(key.as_str());
        let mut taken = ValueMap { entries: Vec::new() };
        core::mem::swap(self, &mut taken);
        let mut entries = taken.entries;
        match at {
            Some(i) => {
                proof {
                    lemma_model_update(entries@, i as int, (key, value));
                    lemma_model_dom(entries@, key@);
                }
                entries.set(i, (key, value));
                assert(entries_keys(entries@) =~= old(self).keys());
            },
            None => {
                proof {
                    lemma_model_dom(entries@, key@);
                    assert(entries@.push((key, value)).drop_last() =~= entries@);
                    lemma_model_step(entries@.push((key, value)));
                }
                entries.push((key, value));
                assert(entries_keys(entries@) =~= old(self).keys().push(key@));
            },
        }
        *self = ValueMap { entries };
    }
}

impl Clone for ValueMap {
    fn clone(&self) -> (copy: ValueMap)
        ensures
            copy@ == self@,
            copy.keys() == self.keys(),
        decreases self, 1nat,
    {
        proof {
            use_type_invariant(self);
        }
        let mut entries: Vec<(String, Value)> = Vec::new();
        let mut i: usize = 0;
        while i < self.entries.len()
            invariant
                i <= self.entries@.len(),
                entries@.len() == i,
                forall|j: int|
                    0 <= j < i ==> (#[trigger] entries@[j]).0@ == self.entries@[j].0@
                        && entries@[j].1@ == self.entries@[j].1@,
            decreases self.entries@.len() - i,
        {
            let key = self.entries[i].0.clone();
            let value = self.entries[i].1.clone();
            entries.push((key, value));
            i += 1;
        }
        proof {
            lemma_model_same(entries@, self.entries@);
            assert(entries_keys(entries@) =~= entries_keys(self.entries@));
        }
        ValueMap { entries }
    }
}

impl Clone for Value {
    fn clone(&self) -> (copy: Value)
        ensures
            copy@ == self@,
        decreases self, 0nat,
    {
        match self {
            Value::Null => Value::Null,
            Value::Boolean(b) => Value::Boolean(*b),
            Value::Integer(i) => Value::Integer(*i),
            Value::LongInteger(i) => Value::LongInteger(*i),
            Value::UInteger(i) => Value::UInteger(*i),
            Value::ULongInteger(i) => Value::ULongInteger(*i),
            Value::Float(bits) => Value::Float(*bits),
            Value::String(s) => Value::String(s.clone()),
            Value::Array(items) => {
                let mut copies: Vec<Value> = Vec::new();
                let mut i: usize = 0;
                while i < items.len()
                    invariant
                        *self == Value::Array(*items),
                        i <= items@.len(),
                        copies@.len() == i,
                        forall|j: int| 0 <= j < i ==> (#[trigger] copies@[j])@ == items@[j]@,
                    decreases items@.len() - i,
                {
                    let item = &items[i];
                    assert(self->Array_0[i as int] == *item);
                    copies.push(item.clone());
                    i += 1;
                }
                assert(items_model(copies@) =~= items_model(items@));
                Value::Array(copies)
            },
            Value::Mapping(m) => Value::Mapping(m.clone()),
        }
    }
}

/// What `get` reads: the child under `key` of a mapping, `Null` otherwise.
pub open spec fn tree_get(t: Tree, key: Seq<char>) -> Tree {
    match t {
        Tree::Mapping(m) => if m.contains_key(key) {
            m[key]
        } else {
            Tree::Null
        },
        _ => Tree::Null,
    }
}

/// What `at` reads: the element at `index` of an array, `Null` otherwise.
pub open spec fn tree_at(t: Tree, index: int) -> Tree {
    match t {
        Tree::Array(items) => if 0 <= index < items.len() {
            items[index]
        } else {
            Tree::Null
        },
        _ => Tree::Null,
    }
}

/// What `len` counts: elements, keys or characters; nothing else has a length.
pub open spec fn tree_len(t: Tree) -> nat {
    match t {
        Tree::Array(items) => items.len(),
        Tree::Mapping(m) => m.len(),
        Tree::String(s) => s.len(),
        _ => 0,
    }
}

impl Value {
    /// The child under `key`, or `Null` where there is none.
    pub fn get(&self, key: &str) -> (child: Value)
        ensures
            child@ == tree_get(self@, key@),
    {
        match self {
            Value::Mapping(m) => match m.get(key) {
                Some(value) => value.clone(),
                None => Value::Null,
            },
            _ => Value::Null,
        }
    }

    /// Puts `value` under `key` of a mapping; any other value is left as it is.
    pub fn set(&mut self, key: &str, value: Value) -> (r: Result<&mut Value, ModelError>)
        ensures
            match r {
                Ok(same) => old(self)@ is Mapping && same@ == Tree::Mapping(
                    old(self)@->Mapping_0.insert(key@, value@),
                ) && *final(self) == *final(same),
                Err(e) => !(old(self)@ is Mapping) && e == ModelError::OperationOnlyForMapValue
                    && *final(self) == *old(self),
            },
    {
        match self {
            Value::Mapping(m) => {
                m.insert(key.to_owned(), value);
                Ok(self)
            },
            _ => Err(ModelError::OperationOnlyForMapValue),
        }
    }

    /// The element at `index`, or `Null` where there is none.
    pub fn at(&self, index: usize) -> (element: Value)
        ensures
            element@ == tree_at(self@, index as int),
    {
        match self {
            Value::Array(items) => {
                proof {
                    lemma_items_model(items@);
                }
                if index < items.len() {
                    items[index].clone()
                } else {
                    Value::Null
                }
            },
            _ => Value::Null,
        }
    }

    /// Appends `value` to an array; any other value is left as it is.
    pub fn push(&mut self, value: Value) -> (r: Result<&mut Value, ModelError>)
        ensures
            match r {
                Ok(same) => old(self)@ is Array && same@ == Tree::Array(
                    old(self)@->Array_0.push(value@),
                ) && *final(self) == *final(same),
                Err(e) => !(old(self)@ is Array) && e == ModelError::OperationOnlyForArrayValue
                    && *final(self) == *old(self),
            },
    {
        match self {
            Value::Array(items) => {
                let ghost before = items@;
                items.push(value);
                assert(items_model(items@) =~= items_model(before).push(value@));
                Ok(self)
            },
            _ => Err(ModelError::OperationOnlyForArrayValue),
        }
    }

    /// The number of elements of an array, keys of a mapping or characters
    /// of a text; 0 for every other value.
    pub fn len(&self) -> (n: usize)
        ensures
            n == tree_len(self@),
    {
        match self {
            Value::Array(items) => {
                proof {
                    lemma_items_model(items@);
                }
                items.len()
            },
            Value::Mapping(m) => m.len(),
            Value::String(s) => s.as_str().unicode_len(),
            _ => 0,
        }
    }

    /// Whether the value is a mapping.
    pub fn is_map(&self) -> (yes: bool)
        ensures
            yes == (self@ is Mapping),
    {
        matches!(self, Value::Mapping(_))
    }

    /// Whether the value is an array.
    pub fn is_array(&self) -> (yes: bool)
        ensures
            yes == (self@ is Array),
    {
        matches!(self, Value::Array(_))
    }

    /// Whether the value is `Null`.
    pub fn is_none(&self) -> (yes: bool)
        ensures
            yes == (self@ is Null),
    {
        matches!(self, Value::Null)
    }
}

/// Equality of two values: the same kind of value with equal payloads.
/// Numbers of kind `Float` are compared as IEEE 754 has it, arrays element
/// by element, mappings key by key, whatever the order of the keys.
pub open spec fn tree_same(a: Tree, b: Tree) -> bool
    decreases a,
{
    match (a, b) {
        (Tree::Null, Tree::Null) => true,
        (Tree::Boolean(x), Tree::Boolean(y)) => x == y,
        (Tree::Integer(x), Tree::Integer(y)) => x == y,
        (Tree::LongInteger(x), Tree::LongInteger(y)) => x == y,
        (Tree::UInteger(x), Tree::UInteger(y)) => x == y,
        (Tree::ULongInteger(x), Tree::ULongInteger(y)) => x == y,
        (Tree::Float(x), Tree::Float(y)) => float_same(x, y),
        (Tree::String(x), Tree::String(y)) => x == y,
        (Tree::Array(x), Tree::Array(y)) => x.len() == y.len() && forall|i: int|
            0 <= i < x.len() ==> tree_same(#[trigger] x[i], y[i]),
        (Tree::Mapping(x), Tree::Mapping(y)) => x.dom() =~= y.dom() && forall|k: Seq<char>|
            #[trigger] x.contains_key(k) ==> tree_same(x[k], y[k]),
        _ => false,
    }
}

/// The defining equation of `tree_same` on two arrays.
pub proof fn lemma_same_arrays(x: Seq<Tree>, y: Seq<Tree>)
    ensures
        tree_same(Tree::Array(x), Tree::Array(y)) == (x.len() == y.len() && forall|i: int|
            0 <= i < x.len() ==> tree_same(#[trigger] x[i], y[i])),
{
}

/// The defining equation of `tree_same` on two mappings.
pub proof fn lemma_same_mappings(x: Map<Seq<char>, Tree>, y: Map<Seq<char>, Tree>)
    ensures
        tree_same(Tree::Mapping(x), Tree::Mapping(y)) == (x.dom() =~= y.dom() && forall|
            k: Seq<char>,
        |
            #[trigger] x.contains_key(k) ==> tree_same(x[k], y[k])),
{
}

impl ValueMap {
    /// Whether two mappings hold equal values under the same keys.
    pub fn same(&self, other: &ValueMap) -> (r: bool)
        ensures
            r == tree_same(Tree::Mapping(self@), Tree::Mapping(other@)),
        decreases self, 1nat,
    {
        proof {
            use_type_invariant(self);
            lemma_same_mappings(self@, other@);
        }
        let n = self.len();
        let m = other.len();
        if n != m {
            assert(!(self@.dom() =~= other@.dom()));
            return false;
        }
        let mut i: usize = 0;
        while i < n
            invariant
                i <= n,
                n == self.entries@.len(),
                keys_distinct(self.entries@),
                forall|j: int|
                    0 <= j < i ==> other@.contains_key(#[trigger] self.entries@[j].0@) && tree_same(
                        self.entries@[j].1@,
                        other@[self.entries@[j].0@],
                    ),
            decreases n - i,
        {
            proof {
                lemma_model_at(self.entries@, i as int);
            }
            match other.get(self.entries[i].0.as_str()) {
                Some(theirs) => {
                    if !self.entries[i].1.same(theirs) {
                        proof {
                            let k = self.entries@[i as int].0@;
                            assert(self@.contains_key(k));
                            assert(self@[k] == self.entries@[i as int].1@);
                            assert(other@[k] == theirs@);
                            assert(!tree_same(self@[k], other@[k]));
                            lemma_same_mappings(self@, other@);
                        }
                        return false;
                    }
                },
                None => {
                    return false;
                },
            }
            i += 1;
        }
        proof {
            assert forall|k: Seq<char>| self@.contains_key(k) implies other@.contains_key(k)
                && tree_same(self@[k], other@[k]) by {
                lemma_model_dom(self.entries@, k);
                let j = choose|j: int| 0 <= j < self.entries@.len() && #[trigger] self.entries@[j].0@ == k;
                lemma_model_at(self.entries@, j);
            }
            assert(self@.dom().subset_of(other@.dom()));
            vstd::set_lib::lemma_subset_equality(self@.dom(), other@.dom());
            lemma_same_mappings(self@, other@);
        }
        true
    }
}

impl Value {
    /// Whether two values are equal.
    pub fn same(&self, other: &Value) -> (r: bool)
        ensures
            r == tree_same(self@, other@),
        decreases self, 0nat,
    {
        match (self, other) {
            (Value::Null, Value::Null) => true,
            (Value::Boolean(x), Value::Boolean(y)) => *x == *y,
            (Value::Integer(x), Value::Integer(y)) => *x == *y,
            (Value::LongInteger(x), Value::LongInteger(y)) => *x == *y,
            (Value::UInteger(x), Value::UInteger(y)) => *x == *y,
            (Value::ULongInteger(x), Value::ULongInteger(y)) => *x == *y,
            (Value::Float(x), Value::Float(y)) => same_float(*x, *y),
            (Value::String(x), Value::String(y)) => text_eq(x.as_str(), y.as_str()),
            (Value::Array(x), Value::Array(y)) => {
                proof {
                    lemma_items_model(x@);
                    lemma_items_model(y@);
                    lemma_same_arrays(items_model(x@), items_model(y@));
                }
                if x.len() != y.len() {
                    return false;
                }
                let mut i: usize = 0;
                while i < x.len()
                    invariant
                        *self == Value::Array(*x),
                        *other == Value::Array(*y),
                        i <= x@.len(),
                        x@.len() == y@.len(),
                        forall|j: int| 0 <= j < i ==> #[trigger] tree_same(x@[j]@, y@[j]@),
                    decreases x@.len() - i,
                {
                    let mine = &x[i];
                    assert(self->Array_0[i as int] == *mine);
                    if !mine.same(&y[i]) {
                        proof {
                            lemma_items_model(x@);
                            lemma_items_model(y@);
                            assert(!tree_same(items_model(x@)[i as int], items_model(y@)[i as int]));
                            lemma_same_arrays(items_model(x@), items_model(y@));
                        }
                        return false;
                    }
                    i += 1;
                }
                proof {
                    lemma_items_model(x@);
                    lemma_items_model(y@);
                    assert forall|j: int| 0 <= j < items_model(x@).len() implies tree_same(
                        #[trigger] items_model(x@)[j],
                        items_model(y@)[j],
                    ) by {
                        assert(tree_same(x@[j]@, y@[j]@));
                    }
                    lemma_same_arrays(items_model(x@), items_model(y@));
                }
                true
            },
            (Value::Mapping(x), Value::Mapping(y)) => x.same(y),
            _ => false,
        }
    }
}

impl PartialEq for Value {
    fn eq(&self, other: &Value) -> (r: bool) {
        self.same(other)
    }
}

impl vstd::std_specs::cmp::PartialEqSpecImpl for Value {
    open spec fn obeys_eq_spec() -> bool {
        true
    }

    open spec fn eq_spec(&self, other: &Value) -> bool {
        tree_same(self@, other@)
    }
}

/// The text of a value: scalars in their natural form, `none` for `Null`,
/// an array as `[e0, e1]` and a mapping as `{k0: v0, k1: v1}`, its keys in
/// the order in which they were set.
pub open spec fn rendered(v: Value, float_text: spec_fn(u64) -> Seq<char>) -> Seq<char>
    decreases v, 0nat,
{
    match v {
        Value::Null => "none"@,
        Value::Boolean(b) => if b {
            "true"@
        } else {
            "false"@
        },
        Value::Integer(i) => decimal_text(i as int),
        Value::LongInteger(i) => decimal_text(i as int),
        Value::UInteger(i) => decimal_text(i as int),
        Value::ULongInteger(i) => decimal_text(i as int),
        Value::Float(bits) => float_text(bits),
        Value::String(s) => s@,
        Value::Array(items) => "["@ + rendered_items(items@, float_text) + "]"@,
        Value::Mapping(m) => rendered_mapping(m, float_text),
    }
}

/// The text of a mapping: the texts of its entries in braces.
pub closed spec fn rendered_mapping(m: ValueMap, float_text: spec_fn(u64) -> Seq<char>) -> Seq<
    char,
>
    decreases m, 2nat,
{
    "{"@ + rendered_entries(m.entries@, float_text) + "}"@
}

/// The texts of the elements of an array, with `, ` between them.
pub open spec fn rendered_items(items: Seq<Value>, float_text: spec_fn(u64) -> Seq<char>) -> Seq<
    char,
>
    decreases items, 1nat,
{
    if items.len() == 0 {
        Seq::empty()
    } else if items.len() == 1 {
        rendered(items[0], float_text)
    } else {
        rendered_items(items.drop_last(), float_text) + ", "@ + rendered(items.last(), float_text)
    }
}

/// The texts of the entries of a mapping, each as `key: value`, with `, `
/// between them.
pub open spec fn rendered_entries(
    entries: Seq<(String, Value)>,
    float_text: spec_fn(u64) -> Seq<char>,
) -> Seq<char>
    decreases entries, 1nat,
{
    if entries.len() == 0 {
        Seq::empty()
    } else if entries.len() == 1 {
        entries[0].0@ + ": "@ + rendered(entries[0].1, float_text)
    } else {
        rendered_entries(entries.drop_last(), float_text) + ", "@ + entries.last().0@ + ": "@
            + rendered(entries.last().1, float_text)
    }
}

/// A value of a mapping is smaller than the mapping: a walk over the
/// entries that descends into the values ends.
pub proof fn lemma_entry_below(m: ValueMap, i: int)
    requires
        0 <= i < m.entries().len(),
    ensures
        decreases_to!(m => m.entries()[i].1),
{
}

/// The text of a mapping is the text of its entries in braces.
pub proof fn lemma_rendered_mapping(m: ValueMap, float_text: spec_fn(u64) -> Seq<char>)
    ensures
        rendered(Value::Mapping(m), float_text) == "{"@ + rendered_entries(
            m.entries(),
            float_text,
        ) + "}"@,
{
}

} // verus!
