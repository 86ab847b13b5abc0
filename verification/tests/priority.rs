use bakunin_config::builder::config_builder::holds_slot;
use bakunin_config::builder::priority::sorted_slots;
use bakunin_config::builder::{
    ConfigBuilder, EnvironmentConfigBuilder, MemoryConfigBuilder, Priority,
};
use bakunin_config::errors::ConfigError;
use bakunin_config::traits::{ConfigReader, PriorityHandler};
use bakunin_config::Value;
use std::collections::HashMap;

fn bare(list: Vec<u64>, first: u64, last: u64) -> ConfigBuilder {
    ConfigBuilder {
        priority_list: list,
        priority_first: first,
        priority_last: last,
        values: HashMap::new(),
    }
}

fn one(key: &str, value: Value) -> Value {
    let mut map = Value::new_map();
    map.set(key, value).unwrap();
    map
}

#[test]
fn test_priority_handler() {
    let mut builder = ConfigBuilder {
        priority_list: Vec::new(),
        priority_first: 0,
        priority_last: 0,
        values: HashMap::new(),
    };

    assert_eq!(builder.is_free(&0), false);
    assert_eq!(builder.is_free(&1), true);

    assert_eq!(builder.next(), Some(1));
    assert_eq!(builder.after(&10), Some(11));
    assert_eq!(builder.before(&10), Some(9));
    assert_eq!(builder.after(&u64::MAX), None);
    assert_eq!(builder.before(&u64::MIN), None);

    builder.priority_list.push(10);
    builder.priority_last = 10;

    assert_eq!(builder.is_free(&10), false);
    assert_eq!(builder.is_free(&1), true);
    assert_eq!(builder.next(), Some(11));
    assert_eq!(builder.after(&9), Some(11));
    assert_eq!(builder.before(&11), Some(9));
}

#[test]
fn test_priority_enum() {
    let mut builder = ConfigBuilder {
        priority_list: Vec::new(),
        priority_first: 0,
        priority_last: 0,
        values: HashMap::new(),
    };

    assert_eq!(Priority::Any.get_priority(&builder), Some(1));
    assert_eq!(Priority::After(10).get_priority(&builder), Some(11));
    assert_eq!(Priority::Before(10).get_priority(&builder), Some(9));
    assert_eq!(Priority::First.get_priority(&builder), Some(1));
    assert_eq!(Priority::FirstAvailable.get_priority(&builder), Some(1));
    assert_eq!(Priority::Last.get_priority(&builder), Some(u64::MAX));
    assert_eq!(Priority::LastAvailable.get_priority(&builder), Some(u64::MAX));

    builder.priority_list.push(10);
    builder.priority_last = 10;

    assert_eq!(Priority::Any.get_priority(&builder), Some(11));
    assert_eq!(Priority::After(9).get_priority(&builder), Some(11));
    assert_eq!(Priority::Before(11).get_priority(&builder), Some(9));

    builder.priority_list.push(1);
    builder.priority_list.push(u64::MAX);
    builder.priority_first = 1;
    builder.priority_last = u64::MAX;

    assert_eq!(Priority::Any.get_priority(&builder), Some(11));
    assert_eq!(Priority::After(1).get_priority(&builder), Some(2));
    assert_eq!(Priority::Before(u64::MAX).get_priority(&builder), Some(u64::MAX - 1));
    assert_eq!(Priority::First.get_priority(&builder), None);
    assert_eq!(Priority::FirstAvailable.get_priority(&builder), Some(2));
    assert_eq!(Priority::Last.get_priority(&builder), None);
    assert_eq!(Priority::LastAvailable.get_priority(&builder), Some(u64::MAX - 1));
}

#[test]
fn any_placement_when_the_last_slot_is_taken() {
    let builder = bare(vec![1, 2, 3, u64::MAX], 1, u64::MAX);
    assert_eq!(Priority::Any.get_priority(&builder), Some(4));

    let builder = bare(vec![u64::MAX, 50, 3, 1, 2], 1, u64::MAX);
    assert_eq!(Priority::Any.get_priority(&builder), Some(51));

    let builder = bare(vec![u64::MAX], u64::MAX, u64::MAX);
    assert_eq!(Priority::Any.get_priority(&builder), Some(1));

    let builder = bare(vec![], 0, u64::MAX);
    assert_eq!(Priority::Any.get_priority(&builder), Some(1));

    let builder = bare(vec![u64::MAX - 1, u64::MAX], u64::MAX - 1, u64::MAX);
    assert_eq!(Priority::Any.get_priority(&builder), Some(u64::MAX - 2));

    let builder = bare(vec![5, 7], 5, 20);
    assert_eq!(Priority::Any.get_priority(&builder), Some(21));
}

#[test]
fn first_and_first_available() {
    let builder = bare(vec![1], 1, 1);
    assert_eq!(Priority::First.get_priority(&builder), None);
    assert_eq!(Priority::FirstAvailable.get_priority(&builder), Some(2));
    let builder = bare(vec![3, 1, 2, 5], 1, 5);
    assert_eq!(Priority::FirstAvailable.get_priority(&builder), Some(4));
    let builder = bare(vec![2], 2, 2);
    assert_eq!(Priority::First.get_priority(&builder), Some(1));
    assert_eq!(Priority::FirstAvailable.get_priority(&builder), Some(1));
}

#[test]
fn no_slot_beyond_the_ends() {
    let builder = bare(vec![4], 4, 4);
    assert_eq!(builder.before(&u64::MIN), None);
    assert_eq!(builder.after(&u64::MAX), None);
    assert_eq!(builder.before(&1), None);
    assert_eq!(Priority::Before(0).get_priority(&builder), None);
    assert_eq!(Priority::Before(1).get_priority(&builder), None);
    assert_eq!(Priority::After(u64::MAX).get_priority(&builder), None);
    let full_top = bare(vec![u64::MAX], u64::MAX, u64::MAX);
    assert_eq!(full_top.after(&(u64::MAX - 1)), None);
    assert_eq!(Priority::Before(5).get_priority(&bare(vec![4, 3, 2, 1], 1, 4)), None);
    assert_eq!(builder.last_used(), 4);
    assert_eq!(builder.first_used(), 4);
    assert_eq!(builder.used(), &vec![4]);
}

#[test]
fn slots_sort_ascending() {
    assert_eq!(sorted_slots(&vec![5, 1, u64::MAX, 3, 3]), vec![1, 3, 3, 5, u64::MAX]);
    assert_eq!(sorted_slots(&vec![]), Vec::<u64>::new());
    assert!(holds_slot(&vec![5, 1], 1));
    assert!(!holds_slot(&vec![5, 1], 2));
}

#[test]
fn test_memory_config_builder() {
    let builder = MemoryConfigBuilder::new()
        .set_priority(Priority::First)
        .set_value(one("a", 10.into()));

    assert_eq!(builder.priority, Priority::First);
    assert_eq!(builder.value.get("a").try_into_i64().unwrap(), 10);
}

#[test]
fn memory_source_reads_only_mappings() {
    let source = MemoryConfigBuilder::new();
    assert_eq!(source.name(), "Memory");
    assert_eq!(source.read(), Ok(Value::new_map()));
    let source = source.set_value(Value::Integer(1));
    assert_eq!(source.read(), Err(ConfigError::NotMapValue));
    assert_eq!(source.get_priority(&ConfigBuilder::new()), Some(101));
}

#[test]
fn validation_of_slots() {
    let mut builder = ConfigBuilder::new();
    assert_eq!(builder.validate_priority(None), Err(ConfigError::BuilderPriorityNotFound));
    assert_eq!(builder.validate_priority(Some(0)), Err(ConfigError::BuilderPriorityReserved));
    assert_eq!(builder.validate_priority(Some(7)), Ok(7));
    assert_eq!(builder.add_value(Priority::After(6), Value::new_map()), Ok(7));
    assert_eq!(builder.validate_priority(Some(7)), Err(ConfigError::BuilderPriorityInUse(7)));
    assert_eq!(
        builder.add_value(Priority::First, Value::new_map()),
        Ok(1)
    );
    assert_eq!(
        builder.add_value(Priority::First, Value::new_map()),
        Err(ConfigError::BuilderPriorityNotFound)
    );
    assert_eq!(builder.priority_list, vec![7, 1]);
    assert_eq!(builder.priority_first, 1);
    assert_eq!(builder.priority_last, 100);
}

#[test]
fn a_layer_that_is_no_mapping_is_not_added() {
    let mut builder = ConfigBuilder::new();
    assert_eq!(builder.append_value(Value::Integer(1)), Err(ConfigError::NotMapValue));
    assert_eq!(
        builder.add_value(Priority::First, Value::from(vec![1])),
        Err(ConfigError::NotMapValue)
    );
    let source = MemoryConfigBuilder::new().set_value(Value::from("text"));
    assert_eq!(builder.add_config(&source), Err(ConfigError::NotMapValue));
    assert_eq!(
        builder.place(Some(5), Ok(Value::Null)),
        Err(ConfigError::NotMapValue)
    );
    assert!(builder.priority_list.is_empty());
    assert_eq!(builder.values.len(), 1);
    assert_eq!(builder.build(), Value::new_map());
    assert_eq!(ConfigBuilder::from_base(Value::Integer(1)).err(), Some(ConfigError::NotMapValue));
}

#[test]
fn place_hands_on_the_failure_of_a_source() {
    let mut builder = ConfigBuilder::new();
    assert_eq!(
        builder.place(Some(5), Err(ConfigError::FileOperation("x".to_string()))),
        Err(ConfigError::FileOperation("x".to_string()))
    );
    assert_eq!(
        builder.place(None, Ok(Value::new_map())),
        Err(ConfigError::BuilderPriorityNotFound)
    );
    assert_eq!(
        builder.place(Some(0), Ok(Value::new_map())),
        Err(ConfigError::BuilderPriorityReserved)
    );
    assert!(builder.priority_list.is_empty());
    assert_eq!(builder.place(Some(5), Ok(Value::new_map())), Ok(5));
    assert_eq!(
        builder.place(Some(5), Ok(Value::new_map())),
        Err(ConfigError::BuilderPriorityInUse(5))
    );
}

#[test]
fn build_merges_in_ascending_order_of_slots() {
    let mut builder = ConfigBuilder::from_base(one("k", "base".into())).unwrap();
    assert_eq!(builder.add_value(Priority::After(30), one("k", "late".into())), Ok(31));
    assert_eq!(builder.add_value(Priority::First, one("k", "early".into())), Ok(1));
    assert_eq!(builder.add_value(Priority::Before(31), one("m", "mid".into())), Ok(30));
    assert_eq!(builder.append_value(one("n", "any".into())), Ok(101));
    let built = builder.build();
    assert_eq!(built.get("k"), Value::from("late"));
    assert_eq!(built.get("m"), Value::from("mid"));
    assert_eq!(built.get("n"), Value::from("any"));

    let mut other = ConfigBuilder::from_base(one("k", "base".into())).unwrap();
    other.add_value(Priority::Last, one("k", "last".into())).unwrap();
    other.add_value(Priority::First, one("k", "first".into())).unwrap();
    assert_eq!(other.build().get("k"), Value::from("last"));
    assert_eq!(other.priority_last, u64::MAX);
    assert_eq!(other.priority_first, 1);
    assert_eq!(other.append_value(one("z", 1.into())), Ok(2));
}

#[test]
fn start_from_moves_the_search() {
    let mut builder = ConfigBuilder::new();
    assert_eq!(builder.start_from(10), Ok(()));
    assert_eq!(builder.append_value(Value::new_map()), Ok(11));
    assert_eq!(builder.start_from(u64::MAX), Err(ConfigError::BuilderPriorityNotFound));
    assert_eq!(builder.priority_last, 11);
    assert_eq!(builder.start_from(11), Ok(()));
    assert_eq!(builder.add_value(Priority::Last, Value::new_map()), Ok(u64::MAX));
    assert_eq!(builder.start_from(u64::MAX), Ok(()));
    assert_eq!(builder.start_from(u64::MAX - 1), Err(ConfigError::BuilderPriorityNotFound));
}

fn vars(list: &[(&str, &str)]) -> Vec<(String, String)> {
    list.iter().map(|(k, v)| (k.to_string(), v.to_string())).collect()
}

#[test]
fn environment_overrides_the_base() {
    let mut base = Value::new_map();
    base.set("path", "/default".into()).unwrap();
    base.set("delay", 1000.into()).unwrap();
    let mut builder = ConfigBuilder::from_base(base).unwrap();
    let snapshot = vars(&[("PREFIX_delay", "2000"), ("HOME", "/root")]);
    assert_eq!(builder.environment("PREFIX", &snapshot), Ok(u64::MAX));
    let built = builder.build();
    assert_eq!(built.get("path").try_into_string().unwrap(), "/default");
    assert_eq!(built.get("delay").try_into_i64().unwrap(), 2000);
    assert_eq!(built.len(), 2);
    assert_eq!(
        builder.add_environment(Priority::Any, "  ", &snapshot),
        Err(ConfigError::Environment("Environment prefix cannot be empty".to_string()))
    );
}

#[test]
fn env_test_load_environment() {
    let snapshot = vars(&[
        ("TEST_value1", "1"),
        ("TEST_value2", "2.5"),
        ("TEST_value3", "true"),
        ("TEST_value4", "data"),
    ]);

    let mut loader = EnvironmentConfigBuilder::new("TEST_".to_string());
    loader.load_mut(&snapshot).unwrap();
    let value = loader.cache();

    assert_eq!(value.get("value1").try_into_i64().unwrap(), 1);
    assert_eq!(value.get("value2").try_into_string().unwrap().parse::<f64>().unwrap(), 2.5);
    assert_eq!(value.get("value3").try_into_bool().unwrap(), true);
    assert_eq!(value.get("value4").try_into_string().unwrap(), "data");
}

#[test]
fn environment_source_builds_its_prefix_and_keeps_what_it_read() {
    assert_eq!(EnvironmentConfigBuilder::build_prefix(" APP "), "APP_");
    assert_eq!(EnvironmentConfigBuilder::build_prefix("APP_"), "APP_");
    assert_eq!(EnvironmentConfigBuilder::build_prefix("   "), "");
    assert_eq!(EnvironmentConfigBuilder::build_prefix(""), "");
    let source = EnvironmentConfigBuilder::new("x".to_string()).set_priority(Priority::Last);
    assert_eq!(source.prefix, "x_");
    assert_eq!(source.name(), "Environment[x_]");
    assert_eq!(source.priority, Priority::Last);
    assert_eq!(source.get_priority(&ConfigBuilder::new()), Some(u64::MAX));
    let mut source = source.set_prefix("y");
    assert_eq!(source.cache(), &Value::Null);
    source.load_mut(&vars(&[("y_a", "1")])).unwrap();
    assert_eq!(source.read(&vars(&[("y_a", "2")])).unwrap().get("a"), Value::from("1"));
    let empty = EnvironmentConfigBuilder::new(" ".to_string());
    assert_eq!(
        empty.read(&vars(&[])),
        Err(ConfigError::Environment("Environment prefix cannot be empty".to_string()))
    );
}

#[test]
fn a_source_is_read_and_placed() {
    let mut builder = ConfigBuilder::new();
    let source = MemoryConfigBuilder::new()
        .set_priority(Priority::Before(10))
        .set_value(one("a", 1.into()));
    assert_eq!(builder.add_config(&source), Ok(9));
    assert_eq!(builder.add_config(&source), Ok(8));
    let taken = MemoryConfigBuilder::new().set_priority(Priority::Before(1));
    assert_eq!(builder.add_config(&taken), Err(ConfigError::BuilderPriorityNotFound));
    assert_eq!(builder.priority_list, vec![9, 8]);
    assert_eq!(builder.priority_first, 8);
    assert_eq!(builder.build().get("a"), Value::Integer(1));
}

#[test]
fn builders_compare_and_copy() {
    let mut builder = ConfigBuilder::from_base(one("k", 1.into())).unwrap();
    builder.add_value(Priority::First, one("a", 2.into())).unwrap();
    let copy = builder.clone();
    assert_eq!(copy, builder);
    builder.append_value(Value::new_map()).unwrap();
    assert_ne!(copy, builder);
    assert_eq!(copy.build(), builder.build());
}

#[test]
fn any_placement_after_the_layers_were_added() {
    let mut builder = ConfigBuilder::new();
    assert_eq!(builder.add_value(Priority::First, Value::new_map()), Ok(1));
    assert_eq!(builder.add_value(Priority::After(1), Value::new_map()), Ok(2));
    assert_eq!(builder.add_value(Priority::After(2), Value::new_map()), Ok(3));
    assert_eq!(builder.add_value(Priority::Last, Value::new_map()), Ok(u64::MAX));
    assert_eq!(builder.priority_last, u64::MAX);
    assert_eq!(builder.priority_first, 1);
    assert_eq!(Priority::Any.get_priority(&builder), Some(4));
    assert_eq!(builder.add_value(Priority::After(49), Value::new_map()), Ok(50));
    assert_eq!(Priority::Any.get_priority(&builder), Some(51));

    let mut only_last = ConfigBuilder::new();
    assert_eq!(only_last.add_value(Priority::Last, Value::new_map()), Ok(u64::MAX));
    assert_eq!(Priority::Any.get_priority(&only_last), Some(1));

    let mut taken = ConfigBuilder::new();
    assert_eq!(taken.add_value(Priority::First, Value::new_map()), Ok(1));
    let first = MemoryConfigBuilder::new().set_priority(Priority::First);
    assert_eq!(taken.add_config(&first), Err(ConfigError::BuilderPriorityNotFound));
    assert_eq!(taken.used(), &vec![1]);
}
