use crate::model::value::{tree_get, Tree, Value, ValueMap};
use vstd::prelude::*;

verus! {

/// The merge of `source` into `target`. Two mappings give the mapping with
/// the keys of both: a key of `source` holds the merge of the two values
/// where both are mappings, and the value of `source` in every other case;
/// the other keys hold what `target` has. Where either side is no mapping,
/// `target` is kept.
pub open spec fn merged(target: Tree, source: Tree) -> Tree
    decreases source,
{
    match (target, source) {
        (Tree::Mapping(x), Tree::Mapping(y)) => Tree::Mapping(
            Map::new(
                |k: Seq<char>| x.contains_key(k) || y.contains_key(k),
                |k: Seq<char>|
                    if y.contains_key(k) {
                        if x.contains_key(k) && x[k] is Mapping && y[k] is Mapping {
                            merged(x[k], y[k])
                        } else {
                            y[k]
                        }
                    } else {
                        x[k]
                    },
            ),
        ),
        _ => target,
    }
}

/// What a key of the source gives in the merged mapping.
pub open spec fn merged_entry(
    target: Map<Seq<char>, Tree>,
    source: Map<Seq<char>, Tree>,
    key: Seq<char>,
) -> Tree {
    if target.contains_key(key) && target[key] is Mapping && source[key] is Mapping {
        merged(target[key], source[key])
    } else {
        source[key]
    }
}

/// The merge in which only the keys in `done` have been taken from `source`.
pub open spec fn merged_upto(
    target: Map<Seq<char>, Tree>,
    source: Map<Seq<char>, Tree>,
    done: Set<Seq<char>>,
) -> Map<Seq<char>, Tree> {
    Map::new(
        |k: Seq<char>| target.contains_key(k) || done.contains(k),
        |k: Seq<char>|
            if done.contains(k) {
                merged_entry(target, source, k)
            } else {
                target[k]
            },
    )
}

/// The merge of two mappings is the merge in which every key of the source
/// has been taken.
pub proof fn lemma_merged_all(x: Map<Seq<char>, Tree>, y: Map<Seq<char>, Tree>)
    ensures
        merged(Tree::Mapping(x), Tree::Mapping(y)) == Tree::Mapping(merged_upto(x, y, y.dom())),
{
    assert(merged(Tree::Mapping(x), Tree::Mapping(y))->Mapping_0 =~= merged_upto(x, y, y.dom()));
}

/// Reading a merged mapping: a key of the source gives the source's value,
/// or the merge of both values where both are mappings; any other key gives
/// what the target has.
pub proof fn lemma_merge_get(a: Tree, b: Tree, key: Seq<char>)
    requires
        a is Mapping,
        b is Mapping,
    ensures
        b->Mapping_0.contains_key(key) ==> tree_get(merged(a, b), key) == if tree_get(a, key) is Mapping
            && tree_get(b, key) is Mapping {
            merged(tree_get(a, key), tree_get(b, key))
        } else {
            tree_get(b, key)
        },
        !b->Mapping_0.contains_key(key) ==> tree_get(merged(a, b), key) == tree_get(a, key),
{
}

/// The source wins: under a key that both mappings hold, with a value
/// that is no mapping on at least one side, the merge holds the source's
/// value. So where the two values differ, the order of a merge matters.
pub proof fn lemma_merge_right_biased(a: Tree, b: Tree, key: Seq<char>)
    requires
        a is Mapping,
        b is Mapping,
        a->Mapping_0.contains_key(key),
        b->Mapping_0.contains_key(key),
        !(a->Mapping_0[key] is Mapping) || !(b->Mapping_0[key] is Mapping),
    ensures
        tree_get(merged(a, b), key) == b->Mapping_0[key],
        tree_get(merged(b, a), key) == a->Mapping_0[key],
        a->Mapping_0[key] != b->Mapping_0[key] ==> merged(a, b) != merged(b, a),
{
}

/// Merging a value into itself changes nothing.
pub proof fn lemma_merge_idempotent(a: Tree)
    ensures
        merged(a, a) == a,
    decreases a,
{
    match a {
        Tree::Mapping(x) => {
            assert forall|k: Seq<char>| x.contains_key(k) implies #[trigger] merged_entry(x, x, k)
                == x[k] by {
                if x[k] is Mapping {
                    lemma_merge_idempotent(x[k]);
                }
            }
            lemma_merged_all(x, x);
            assert(merged_upto(x, x, x.dom()) =~= x);
        },
        _ => {},
    }
}

/// Keys that only the target holds are kept, with their values.
pub proof fn lemma_merge_keeps_target(a: Tree, b: Tree, key: Seq<char>)
    requires
        a is Mapping,
        b is Mapping,
        a->Mapping_0.contains_key(key),
        !b->Mapping_0.contains_key(key),
    ensures
        merged(a, b)->Mapping_0.contains_key(key),
        merged(a, b)->Mapping_0[key] == a->Mapping_0[key],
{
}

impl Value {
    /// The merge of `other` into a copy of `self`; neither is changed.
    pub fn clone_merge(&self, other: &Value) -> (r: Value)
        ensures
            r@ == merged(self@, other@),
        decreases other@,
    {
        match (self, other) {
            (Value::Mapping(target), Value::Mapping(source)) => {
                let mut result: ValueMap = target.clone();
                let n = source.len();
                let ghost x = target@;
                let ghost y = source@;
                let ghost keys = source.keys();
                let mut i: usize = 0;
                assert(result@ =~= merged_upto(x, y, keys.take(0).to_set()));
                while i < n
                    invariant
                        i <= n,
                        n == keys.len(),
                        x == target@,
                        y == source@,
                        other@ == Tree::Mapping(y),
                        keys == source.keys(),
                        y.dom().finite(),
                        keys.no_duplicates(),
                        forall|k: Seq<char>| y.contains_key(k) <==> keys.contains(k),
                        result@ == merged_upto(x, y, keys.take(i as int).to_set()),
                    decreases n - i,
                {
                    let key = source.key_at(i);
                    let value = source.value_at(i);
                    proof {
                        assert(y.contains_key(key@) && y[key@] == value@);
                        vstd::map::axiom_map_index_decreases_finite(y, key@);
                        assert(other@->Mapping_0 == y);
                        assert(decreases_to!(other@ => value@));
                    }
                    let entry = match target.get(key.as_str()) {
                        Some(existing) => if existing.is_map() && value.is_map() {
                            existing.clone_merge(value)
                        } else {
                            value.clone()
                        },
                        None => value.clone(),
                    };
                    assert(entry@ == merged_entry(x, y, key@));
                    result.insert(key.clone(), entry);
                    proof {
                        let before = keys.take(i as int).to_set();
                        let after = keys.take(i + 1).to_set();
                        assert(keys.take(i + 1) =~= keys.take(i as int).push(key@));
                        keys.take(i as int).lemma_push_to_set_commute(key@);
                        assert(result@ =~= merged_upto(x, y, after));
                    }
                    i += 1;
                }
                proof {
                    assert(keys.take(n as int) =~= keys);
                    assert(keys.to_set() =~= y.dom());
                    lemma_merged_all(x, y);
                }
                Value::Mapping(result)
            },
            _ => self.clone(),
        }
    }

    /// Merges `other` into `self`. Only two mappings merge: in every other
    /// case `self` stays as it is.
    pub fn merge(&mut self, other: &Value)
        ensures
            final(self)@ == merged(old(self)@, other@),
    {
        if self.is_map() && other.is_map() {
            let result = self.clone_merge(other);
            *self = result;
        }
    }
}

} // verus!
