use bakunin_config::model::display::Piece;
use bakunin_config::model::value::ValueMap;
use bakunin_config::{ModelError, Value};

fn float(number: f64) -> Value {
    Value::Float(number.to_bits())
}

fn as_f64(value: Value) -> f64 {
    match value {
        Value::Float(bits) => f64::from_bits(bits),
        other => panic!("not a float: {:?}", other),
    }
}

fn text(value: &Value) -> String {
    let mut out = String::new();
    for piece in value.pieces() {
        match piece {
            Piece::Text(part) => out.push_str(&part),
            Piece::Float(bits) => out.push_str(&format!("{}", f64::from_bits(bits))),
        }
    }
    out
}

fn person() -> Value {
    let mut address = Value::new_map();
    address.set("street", "123 Main St".into()).unwrap();
    address.set("city", "Anytown".into()).unwrap();
    address.set("state", "CA".into()).unwrap();
    address.set("zip", 12345.into()).unwrap();
    let mut value = Value::new_map();
    value.set("name", "David".into()).unwrap();
    value.set("age", 33.into()).unwrap();
    value.set("address", address).unwrap();
    value
}

fn local() -> Value {
    let mut address = Value::new_map();
    address.set("street", "123 Main St".into()).unwrap();
    address.set("city", "Another Town".into()).unwrap();
    address.set("state", "CA".into()).unwrap();
    address.set("zip", 12345.into()).unwrap();
    address.set("number", 123.into()).unwrap();
    let mut education = Value::new_map();
    education.set("high_school", "Anytown High School".into()).unwrap();
    education.set("college", "Anytown College".into()).unwrap();
    let mut value = Value::new_map();
    value.set("address", address).unwrap();
    value.set("education", education).unwrap();
    value.set("height", 170.into()).unwrap();
    value
}

fn check_merged(value: &Value) {
    assert_eq!(value.get("name").try_into_string().unwrap(), "David");
    assert_eq!(value.get("age").try_into_i64().unwrap(), 33);
    assert_eq!(value.get("height").try_into_i64().unwrap(), 170);
    assert_eq!(value.get("address").get("street").try_into_string().unwrap(), "123 Main St");
    assert_eq!(value.get("address").get("city").try_into_string().unwrap(), "Another Town");
    assert_eq!(value.get("address").get("state").try_into_string().unwrap(), "CA");
    assert_eq!(value.get("address").get("zip").try_into_i64().unwrap(), 12345);
    assert_eq!(value.get("address").get("number").try_into_i64().unwrap(), 123);
    assert_eq!(
        value.get("education").get("high_school").try_into_string().unwrap(),
        "Anytown High School"
    );
    assert_eq!(
        value.get("education").get("college").try_into_string().unwrap(),
        "Anytown College"
    );
}

#[test]
fn test_merge() {
    let mut value = person();
    let local = local();

    value.merge(&local);

    check_merged(&value);
}

#[test]
fn test_clone_merge() {
    let value = person();
    let local = local();

    let value = value.clone_merge(&local);

    check_merged(&value);
}

#[test]
fn clone_merge_leaves_both_sides() {
    let value = person();
    let local = local();
    let _ = value.clone_merge(&local);
    assert_eq!(value, person());
    assert_eq!(local, self::local());
}

#[test]
fn merge_deep_scenario() {
    let mut inner_a = Value::new_map();
    inner_a.set("x", 1.into()).unwrap();
    inner_a.set("y", 2.into()).unwrap();
    let mut a = Value::new_map();
    a.set("a", inner_a).unwrap();

    let mut inner_b = Value::new_map();
    inner_b.set("y", 3.into()).unwrap();
    inner_b.set("z", 4.into()).unwrap();
    let mut b = Value::new_map();
    b.set("a", inner_b).unwrap();

    let mut expected_inner = Value::new_map();
    expected_inner.set("x", 1.into()).unwrap();
    expected_inner.set("y", 3.into()).unwrap();
    expected_inner.set("z", 4.into()).unwrap();
    let mut expected = Value::new_map();
    expected.set("a", expected_inner).unwrap();

    a.merge(&b);
    assert_eq!(a, expected);
}

#[test]
fn merge_is_right_biased_and_not_commutative() {
    let mut a = Value::new_map();
    a.set("k", 1.into()).unwrap();
    a.set("only_a", "a".into()).unwrap();
    let mut b = Value::new_map();
    b.set("k", 2.into()).unwrap();

    let ab = a.clone_merge(&b);
    let ba = b.clone_merge(&a);
    assert_eq!(ab.get("k"), Value::Integer(2));
    assert_eq!(ba.get("k"), Value::Integer(1));
    assert_eq!(ab.get("only_a"), Value::from("a"));
    assert_ne!(ab, ba);
}

#[test]
fn merge_replaces_arrays_and_mismatched_kinds() {
    let mut a = Value::new_map();
    a.set("list", Value::from(vec![1, 2, 3])).unwrap();
    a.set("m", Value::new_map()).unwrap();
    a.set("s", 1.into()).unwrap();
    let mut inner = Value::new_map();
    inner.set("x", 1.into()).unwrap();
    let mut b = Value::new_map();
    b.set("list", Value::from(vec![9])).unwrap();
    b.set("m", 5.into()).unwrap();
    b.set("s", inner.clone()).unwrap();

    a.merge(&b);
    assert_eq!(a.get("list"), Value::from(vec![9]));
    assert_eq!(a.get("m"), Value::Integer(5));
    assert_eq!(a.get("s"), inner);
}

#[test]
fn merge_of_other_kinds_changes_nothing() {
    let mut a = Value::from(vec![1, 2]);
    a.merge(&person());
    assert_eq!(a, Value::from(vec![1, 2]));

    let mut m = person();
    m.merge(&Value::Integer(1));
    assert_eq!(m, person());

    let mut n = Value::Null;
    n.merge(&Value::Null);
    assert_eq!(n, Value::Null);
}

#[test]
fn merge_with_itself_changes_nothing() {
    let value = person();
    assert_eq!(value.clone_merge(&value), value);
}

#[test]
fn test_value_iter() {
    let mut value = Value::new_array();
    value.push(1.into()).unwrap();
    value.push(2.into()).unwrap();
    value.push(3.into()).unwrap();
    let mut iter = value.iter();

    assert_eq!(Value::Integer(1), *iter.next().unwrap());
    assert_eq!(Value::Integer(2), *iter.next().unwrap());
    assert_eq!(Value::Integer(3), *iter.next().unwrap());
    assert!(iter.next().is_none());
    assert!(iter.next().is_none());
}

#[test]
fn iter_over_what_is_no_array_is_empty() {
    let value = person();
    assert!(value.iter().next().is_none());
    assert!(Value::Integer(1).iter().next().is_none());
}

#[test]
fn test_model_value_new_map() {
    let val = Value::new_map()
        .set("a", 1.into())
        .unwrap()
        .set("b", "data".into())
        .unwrap()
        .to_owned();

    assert_eq!(val.get("a").try_into_i64().unwrap(), 1);
    assert_eq!(val.get("b").try_into_string().unwrap(), "data");
}

fn sample_array() -> Value {
    let mut array = Value::new_array();
    array.push(1.into()).unwrap();
    array.push("data".into()).unwrap();
    array.push(float(3.14)).unwrap();
    array.push(true.into()).unwrap();
    array
}

#[test]
fn test_model_value_new_array() {
    let val = sample_array();

    assert_eq!(val.len(), 4);
    assert_eq!(val.at(0).try_into_i64().unwrap(), 1);
    assert_eq!(val.at(1).try_into_string().unwrap(), "data");
    assert_eq!(as_f64(val.at(2)), 3.14);
    assert_eq!(val.at(3).try_into_bool().unwrap(), true);
}

#[test]
fn test_model_value_map_macro() {
    let mut inner = Value::new_map();
    inner.set("a", 1.into()).unwrap();
    inner.set("b", "data".into()).unwrap();
    inner.set("c", float(3.14)).unwrap();
    inner.set("d", true.into()).unwrap();
    let mut val = Value::new_map();
    val.set("a", 1.into()).unwrap();
    val.set("b", "data".into()).unwrap();
    val.set("c", float(3.14)).unwrap();
    val.set("d", true.into()).unwrap();
    val.set("e", inner).unwrap();
    val.set("f", sample_array()).unwrap();
    val.set("g", Option::None::<i64>.into()).unwrap();

    assert_eq!(val.get("a").try_into_i64().unwrap(), 1);
    assert_eq!(val.get("b").try_into_string().unwrap(), "data");
    assert_eq!(as_f64(val.get("c")), 3.14);
    assert_eq!(val.get("d").try_into_bool().unwrap(), true);
    assert_eq!(val.get("e").get("a").try_into_i64().unwrap(), 1);
    assert_eq!(val.get("e").get("b").try_into_string().unwrap(), "data");
    assert_eq!(as_f64(val.get("e").get("c")), 3.14);
    assert_eq!(val.get("e").get("d").try_into_bool().unwrap(), true);
    assert_eq!(val.get("f").at(0).try_into_i64().unwrap(), 1);
    assert_eq!(val.get("f").at(1).try_into_string().unwrap(), "data");
    assert_eq!(as_f64(val.get("f").at(2)), 3.14);
    assert_eq!(val.get("f").at(3).try_into_bool().unwrap(), true);
    assert!(val.get("g").is_none());
}

#[test]
fn test_model_value_display() {
    let value = Value::Null;
    assert_eq!(text(&value), "none");

    let value = Value::Boolean(true);
    assert_eq!(text(&value), "true");

    let value = Value::Integer(1);
    assert_eq!(text(&value), "1");

    let value = Value::LongInteger(1);
    assert_eq!(text(&value), "1");

    let value = Value::UInteger(1);
    assert_eq!(text(&value), "1");

    let value = Value::ULongInteger(1);
    assert_eq!(text(&value), "1");

    let value = float(1.0);
    assert_eq!(text(&value), "1");

    let value = Value::String("test".to_string());
    assert_eq!(text(&value), "test");

    let value = Value::Array(vec![Value::Integer(1), Value::Integer(2)]);
    assert_eq!(text(&value), "[1, 2]");

    let value = Value::Mapping(ValueMap::from_entries(vec![("a".to_string(), Value::Integer(1))]));
    assert_eq!(text(&value), "{a: 1}");
}

#[test]
fn display_of_nested_and_extreme_values() {
    assert_eq!(text(&Value::Integer(i64::MIN)), i64::MIN.to_string());
    assert_eq!(text(&Value::LongInteger(i128::MIN)), i128::MIN.to_string());
    assert_eq!(text(&Value::ULongInteger(u128::MAX)), u128::MAX.to_string());
    assert_eq!(text(&Value::Integer(-10)), "-10");
    assert_eq!(text(&Value::Integer(0)), "0");
    assert_eq!(text(&Value::new_array()), "[]");
    assert_eq!(text(&Value::new_map()), "{}");
    let mut inner = Value::new_map();
    inner.set("x", float(2.5)).unwrap();
    inner.set("y", Value::from(vec![1, 2])).unwrap();
    let mut outer = Value::new_map();
    outer.set("b", Value::Boolean(false)).unwrap();
    outer.set("a", inner).unwrap();
    assert_eq!(text(&outer), "{b: false, a: {x: 2.5, y: [1, 2]}}");
}

#[test]
fn test_model_value_from() {
    let value = Value::from(1);
    assert_eq!(value, Value::Integer(1));

    let value = float(1.0);
    assert_eq!(value, Value::Float(1.0f64.to_bits()));

    let value = Value::from(true);
    assert_eq!(value, Value::Boolean(true));

    let value = Value::from("test");
    assert_eq!(value, Value::String("test".to_string()));

    let value = Value::from(vec![1, 2, 3]);
    assert_eq!(
        value,
        Value::Array(vec![Value::Integer(1), Value::Integer(2), Value::Integer(3)])
    );

    let value = Value::from(ValueMap::from_entries(vec![("test".to_string(), Value::from(1))]));
    assert_eq!(
        value,
        Value::Mapping(ValueMap::from_entries(vec![("test".to_string(), Value::Integer(1))]))
    );
}

#[test]
fn from_every_scalar_type() {
    assert_eq!(Value::from(-1i8), Value::Integer(-1));
    assert_eq!(Value::from(-1i16), Value::Integer(-1));
    assert_eq!(Value::from(-1i32), Value::Integer(-1));
    assert_eq!(Value::from(-1i64), Value::Integer(-1));
    assert_eq!(Value::from(-1i128), Value::LongInteger(-1));
    assert_eq!(Value::from(1u8), Value::UInteger(1));
    assert_eq!(Value::from(1u16), Value::UInteger(1));
    assert_eq!(Value::from(1u32), Value::UInteger(1));
    assert_eq!(Value::from(1u64), Value::UInteger(1));
    assert_eq!(Value::from(1u128), Value::ULongInteger(1));
    assert_eq!(Value::from("x".to_string()), Value::String("x".to_string()));
    assert_eq!(Value::from(Some(3)), Value::Integer(3));
    assert_eq!(Value::from(Option::<i32>::None), Value::Null);
    assert_eq!(Value::default(), Value::Null);
    assert_eq!(Value::new(), Value::Null);
}

#[test]
fn get_set_at_push_len() {
    let mut map = Value::new_map();
    assert!(map.is_map());
    assert!(!map.is_array());
    assert!(!map.is_none());
    assert_eq!(map.len(), 0);
    map.set("a", 1.into()).unwrap();
    map.set("b", 2.into()).unwrap();
    map.set("a", 3.into()).unwrap();
    assert_eq!(map.len(), 2);
    assert_eq!(map.get("a"), Value::Integer(3));
    assert_eq!(map.get("missing"), Value::Null);
    assert_eq!(map.at(0), Value::Null);
    assert_eq!(map.push(1.into()).unwrap_err(), ModelError::OperationOnlyForArrayValue);
    assert_eq!(map.len(), 2);

    let mut array = Value::with_array_capacity(4);
    assert!(array.is_array());
    array.push(1.into()).unwrap().push(2.into()).unwrap();
    assert_eq!(array.len(), 2);
    assert_eq!(array.at(1), Value::Integer(2));
    assert_eq!(array.at(2), Value::Null);
    assert_eq!(array.get("a"), Value::Null);
    assert_eq!(array.set("a", 1.into()).unwrap_err(), ModelError::OperationOnlyForMapValue);
    assert_eq!(array.len(), 2);

    assert_eq!(Value::from("héllo").len(), 5);
    assert_eq!(Value::Integer(5).len(), 0);
    assert_eq!(Value::Null.len(), 0);
    assert!(Value::Null.is_none());
    assert_eq!(Value::Integer(5).get("a"), Value::Null);
    assert_eq!(Value::Integer(5).at(0), Value::Null);
}

#[test]
fn equality_ignores_the_order_of_keys() {
    let mut a = Value::new_map();
    a.set("x", 1.into()).unwrap();
    a.set("y", 2.into()).unwrap();
    let mut b = Value::new_map();
    b.set("y", 2.into()).unwrap();
    b.set("x", 1.into()).unwrap();
    assert_eq!(a, b);
    b.set("z", 3.into()).unwrap();
    assert_ne!(a, b);
    let mut c = Value::new_map();
    c.set("x", 1.into()).unwrap();
    c.set("y", 3.into()).unwrap();
    assert_ne!(a, c);
    assert_ne!(Value::Integer(1), Value::UInteger(1));
    assert_ne!(Value::from(vec![1, 2]), Value::from(vec![2, 1]));
}

#[test]
fn equality_of_floats_is_that_of_numbers() {
    assert_eq!(float(0.0), float(-0.0));
    assert_ne!(float(f64::NAN), float(f64::NAN));
    assert_eq!(float(1.5), float(1.5));
    assert_ne!(float(1.5), float(2.5));
    assert_eq!(float(f64::INFINITY), float(f64::INFINITY));
    for (a, b) in [(0.0f64, -0.0f64), (f64::NAN, 1.0), (1.0, 1.0), (f64::MIN_POSITIVE, 0.0)] {
        assert_eq!(float(a) == float(b), a == b);
    }
}

#[test]
fn entries_keep_the_order_in_which_keys_were_set() {
    let map = ValueMap::from_entries(vec![
        ("b".to_string(), Value::Integer(1)),
        ("a".to_string(), Value::Integer(2)),
        ("b".to_string(), Value::Integer(3)),
    ]);
    assert_eq!(map.len(), 2);
    let entries = map.into_entries();
    assert_eq!(entries[0].0, "b");
    assert_eq!(entries[0].1, Value::Integer(3));
    assert_eq!(entries[1].0, "a");
}
