use bakunin_config::config::{file_layer_format, merge_reads};
use bakunin_config::config_layer::handlers::{JsonFileHandler, TomlFileHandler};
use bakunin_config::config_layer::{
    ConfigLayer, ConfigLayerError, EnvironmentConfigLayer, FileConfigLayer, MemoryConfigLayer,
};
use bakunin_config::errors::ConfigError;
use bakunin_config::file_finder::FileExtension;
use bakunin_config::model::de::Visit;
use bakunin_config::model::value::ValueMap;
use bakunin_config::model::{ValueSerMap, ValueSerSeq, ValueSerializer};
use bakunin_config::{BakuninConfig, BakuninError, ModelError, Value};

struct Address {
    street: String,
    city: String,
}

struct TestPerson {
    name: String,
    age: u8,
    address: Address,
}

fn field(entries: &ValueMap, name: &str) -> Value {
    entries.get(name).expect("missing field").clone()
}

fn address_from(value: Value) -> Result<Address, ConfigError> {
    let entries = value.deserialize_struct("Address").map_err(|m| ConfigError::ConversionError {
        target: m.target.to_string(),
        value: format!("{:?}", m.value),
    })?;
    Ok(Address {
        street: field(&entries, "street").try_into_string()?,
        city: field(&entries, "city").try_into_string()?,
    })
}

fn person_from(value: Value) -> Result<TestPerson, ConfigError> {
    let entries = value.deserialize_struct("TestPerson").map_err(|m| ConfigError::ConversionError {
        target: m.target.to_string(),
        value: format!("{:?}", m.value),
    })?;
    Ok(TestPerson {
        name: field(&entries, "name").try_into_string()?,
        age: field(&entries, "age").try_into_u8()?,
        address: address_from(field(&entries, "address"))?,
    })
}

#[test]
fn test_deserialize() {
    let mut address = Value::new_map();
    address.set("street", "10 Downing Street".into()).unwrap();
    address.set("city", "London".into()).unwrap();
    let mut map = Value::new_map();
    map.set("name", "John".into()).unwrap();
    map.set("age", 42.into()).unwrap();
    map.set("address", address).unwrap();

    let person = person_from(map).unwrap();
    assert_eq!(person.name, "John");
    assert_eq!(person.age, 42);
    assert_eq!(person.address.street, "10 Downing Street");
    assert_eq!(person.address.city, "London");
}

#[test]
fn deserialize_reports_what_does_not_fit() {
    let mut map = Value::new_map();
    map.set("name", "John".into()).unwrap();
    map.set("age", 300.into()).unwrap();
    map.set("address", Value::new_map()).unwrap();
    let failed = person_from(map).err().unwrap();
    assert_eq!(
        failed,
        ConfigError::CastingError {
            from: "i64".to_string(),
            to: "u8".to_string(),
            why: "Number value is out of target bounds".to_string(),
        }
    );
    assert!(matches!(
        person_from(Value::Integer(1)),
        Err(ConfigError::ConversionError { .. })
    ));
}

#[test]
fn deserialize_shapes() {
    assert!(matches!(Value::Null.deserialize_any(), Visit::Unit));
    assert!(matches!(Value::Boolean(true).deserialize_any(), Visit::Bool(true)));
    assert!(matches!(Value::Integer(-4).deserialize_any(), Visit::I64(-4)));
    assert!(matches!(Value::LongInteger(-4).deserialize_any(), Visit::I128(-4)));
    assert!(matches!(Value::UInteger(4).deserialize_any(), Visit::U64(4)));
    assert!(matches!(Value::ULongInteger(4).deserialize_any(), Visit::U128(4)));
    assert!(matches!(Value::Float(7).deserialize_any(), Visit::Float(7)));
    assert!(matches!(Value::from("a").deserialize_any(), Visit::Str(s) if s == "a"));
    assert!(matches!(Value::from(vec![1]).deserialize_any(), Visit::Elements(v) if v.len() == 1));
    assert!(matches!(Value::new_map().deserialize_any(), Visit::Entries(m) if m.len() == 0));

    assert_eq!(Value::Null.deserialize_option(), None);
    assert_eq!(Value::Integer(1).deserialize_option(), Some(Value::Integer(1)));
    assert!(Value::Null.deserialize_unit().is_ok());
    let misfit = Value::Integer(1).deserialize_unit().unwrap_err();
    assert_eq!(misfit.target, "none");
    assert_eq!(misfit.value, Value::Integer(1));
    assert_eq!(Value::from(vec![1, 2]).deserialize_seq().unwrap().len(), 2);
    assert_eq!(Value::new_map().deserialize_seq().unwrap_err().target, "array");
    assert_eq!(Value::Null.deserialize_map().unwrap_err().target, "map");
    assert_eq!(Value::from(vec![1, 2]).deserialize_tuple(2).unwrap().len(), 2);
}

struct TestStruct {
    name: String,
    age: i64,
    childs: Vec<TestStruct>,
    fam: Vec<(String, TestStruct)>,
    data: Option<u64>,
}

impl TestStruct {
    fn new(name: &str, age: i64) -> Self {
        TestStruct {
            name: name.to_string(),
            age,
            childs: vec![],
            fam: vec![],
            data: Some(10),
        }
    }
}

fn serialize(item: &TestStruct) -> Result<Value, ConfigError> {
    let mut out: ValueSerMap = ValueSerializer.serialize_struct("TestStruct", 5)?;
    out.serialize_field("name", ValueSerializer.serialize_str(&item.name)?)?;
    out.serialize_field("age", ValueSerializer.serialize_i64(item.age)?)?;
    let mut childs: ValueSerSeq = ValueSerializer.serialize_seq(Some(item.childs.len()))?;
    for child in &item.childs {
        childs.serialize_element(serialize(child)?)?;
    }
    out.serialize_field("childs", childs.end()?)?;
    let mut fam = ValueSerializer.serialize_map(Some(item.fam.len()))?;
    for (key, member) in &item.fam {
        fam.serialize_key(ValueSerializer.serialize_str(key)?)?;
        fam.serialize_value(serialize(member)?)?;
    }
    out.serialize_field("fam", fam.end()?)?;
    let data = match item.data {
        Some(data) => ValueSerializer.serialize_u64(data)?,
        None => ValueSerializer.serialize_none()?,
    };
    out.serialize_field("data", data)?;
    out.end()
}

#[test]
fn test_model_value_serializer() {
    let mut user = TestStruct::new("John", 42);

    let child1 = TestStruct::new("Jane", 12);
    user.childs.push(child1);
    let child2 = TestStruct::new("Jack", 10);
    user.childs.push(child2);

    let wife = TestStruct::new("Jane", 45);
    user.fam.push(("wife".to_owned(), wife));

    let cousin = TestStruct::new("Jack", 51);
    user.fam.push(("cousin".to_owned(), cousin));

    let val = serialize(&user).unwrap();

    assert_eq!(val.get("name").try_into_string().unwrap(), "John");
    assert_eq!(val.get("age").try_into_i64().unwrap(), 42);
    assert_eq!(val.get("childs").at(0).get("name").try_into_string().unwrap(), "Jane");
    assert_eq!(val.get("childs").at(0).get("age").try_into_i64().unwrap(), 12);
    assert_eq!(val.get("childs").at(1).get("name").try_into_string().unwrap(), "Jack");
    assert_eq!(val.get("childs").at(1).get("age").try_into_i64().unwrap(), 10);
    assert_eq!(val.get("fam").get("wife").get("name").try_into_string().unwrap(), "Jane");
    assert_eq!(val.get("fam").get("wife").get("age").try_into_i64().unwrap(), 45);
    assert_eq!(val.get("fam").get("cousin").get("name").try_into_string().unwrap(), "Jack");
    assert_eq!(val.get("fam").get("cousin").get("age").try_into_i64().unwrap(), 51);
    assert_eq!(val.get("data"), Value::UInteger(10));
}

#[test]
fn serialize_then_deserialize_round_trips() {
    let mut user = TestStruct::new("John", 42);
    user.childs.push(TestStruct::new("Jane", 12));
    user.fam.push(("wife".to_owned(), TestStruct::new("Ann", 45)));
    let value = serialize(&user).unwrap();

    let entries = value.deserialize_map().unwrap();
    assert_eq!(entries.get("name").unwrap().try_into_string().unwrap(), user.name);
    assert_eq!(entries.get("age").unwrap().try_into_i64().unwrap(), user.age);
    let childs = entries.get("childs").unwrap().clone().deserialize_seq().unwrap();
    assert_eq!(childs.len(), 1);
    assert_eq!(childs[0].get("name").try_into_string().unwrap(), "Jane");
    let fam = entries.get("fam").unwrap().clone().deserialize_map().unwrap();
    assert_eq!(fam.get("wife").unwrap().get("age").try_into_i64().unwrap(), 45);
    assert_eq!(
        entries.get("data").unwrap().clone().deserialize_option().unwrap().try_into_u64().unwrap(),
        10
    );
}

#[test]
fn serializer_shapes() {
    let s = ValueSerializer;
    assert_eq!(s.serialize_bool(true).unwrap(), Value::Boolean(true));
    assert_eq!(s.serialize_i8(-1).unwrap(), Value::Integer(-1));
    assert_eq!(s.serialize_i16(-1).unwrap(), Value::Integer(-1));
    assert_eq!(s.serialize_i32(-1).unwrap(), Value::Integer(-1));
    assert_eq!(s.serialize_u8(1).unwrap(), Value::UInteger(1));
    assert_eq!(s.serialize_u16(1).unwrap(), Value::UInteger(1));
    assert_eq!(s.serialize_u32(1).unwrap(), Value::UInteger(1));
    assert_eq!(s.serialize_float(1.5f64.to_bits()).unwrap(), Value::Float(1.5f64.to_bits()));
    assert_eq!(s.serialize_char('x').unwrap(), Value::from("x"));
    assert_eq!(
        s.serialize_bytes(&[1, 2, 255]).unwrap(),
        Value::Array(vec![Value::UInteger(1), Value::UInteger(2), Value::UInteger(255)])
    );
    assert_eq!(s.serialize_unit().unwrap(), Value::Null);
    assert_eq!(s.serialize_unit_struct("U").unwrap(), Value::Null);
    assert_eq!(s.serialize_unit_variant("E", 0, "A").unwrap(), Value::from("A"));
    let mut expected = Value::new_map();
    expected.set("A", Value::Integer(1)).unwrap();
    assert_eq!(s.serialize_newtype_variant("E", 0, "A", Value::Integer(1)).unwrap(), expected);

    let mut tuple = s.serialize_tuple_variant("E", 1, "T", 2).unwrap();
    tuple.serialize_field(Value::Integer(1)).unwrap();
    tuple.serialize_field(Value::Integer(2)).unwrap();
    let mut expected = Value::new_map();
    expected.set("T", Value::from(vec![1i64, 2])).unwrap();
    assert_eq!(tuple.end().unwrap(), expected);

    let mut record = s.serialize_struct_variant("E", 2, "S", 1).unwrap();
    record.serialize_field("x", Value::Integer(1)).unwrap();
    let mut inner = Value::new_map();
    inner.set("x", Value::Integer(1)).unwrap();
    let mut expected = Value::new_map();
    expected.set("S", inner).unwrap();
    assert_eq!(record.end().unwrap(), expected);

    let mut fields = s.serialize_tuple_struct("P", 2).unwrap();
    fields.serialize_field(Value::Integer(1)).unwrap();
    assert_eq!(fields.end().unwrap(), Value::from(vec![1i64]));
    let mut t = s.serialize_tuple(1).unwrap();
    t.serialize_element(Value::Boolean(true)).unwrap();
    assert_eq!(t.end().unwrap(), Value::Array(vec![Value::Boolean(true)]));

    let mut map = s.serialize_map(None).unwrap();
    map.serialize_key(Value::Integer(7)).unwrap();
    map.serialize_value(Value::Boolean(true)).unwrap();
    assert_eq!(map.end().unwrap().get("7"), Value::Boolean(true));
    let mut map = s.serialize_map(None).unwrap();
    assert!(matches!(
        map.serialize_key(Value::new_array()),
        Err(ConfigError::CastingError { .. })
    ));
}

#[test]
fn model_errors_become_builder_errors() {
    assert_eq!(
        ConfigError::from(ModelError::OperationOnlyForMapValue),
        ConfigError::NotMapValue
    );
    assert_eq!(
        ConfigError::from(ModelError::OperationOnlyForArrayValue),
        ConfigError::NotArrayValue
    );
    assert_eq!(
        ConfigError::from(ModelError::deserialization("x".to_string(), "i64")),
        ConfigError::DeserializeError("Can't deserialize x to i64".to_string())
    );
    assert_eq!(
        ConfigError::from(ModelError::CastingError {
            value: "abc".to_string(),
            to: "i64",
            why: "can't parse string"
        }),
        ConfigError::ConversionError { target: "i64".to_string(), value: "abc".to_string() }
    );
    let failed: Result<u8, ModelError> = ModelError::OperationOnlyForMapValue.to_result();
    assert_eq!(failed, Err(ModelError::OperationOnlyForMapValue));
}

#[test]
fn creates_default_value() {
    let mut log = Value::new_map();
    log.set("level", "info".into()).unwrap();
    log.set("file", "default.log".into()).unwrap();
    let mut default_value = Value::new_map();
    default_value.set("path", "/default/path".into()).unwrap();
    default_value.set("delay", 1000.into()).unwrap();
    default_value.set("log", log).unwrap();

    let config = BakuninConfig::<MemoryConfigLayer>::new()
        .with_memory_layer("default", default_value.clone());

    let v = config.build_value(false).unwrap();

    assert_eq!(v.get("path").try_into_string().unwrap(), "/default/path");
    assert_eq!(v.get("delay").try_into_i64().unwrap(), 1000);
    assert_eq!(v.get("log").get("level").try_into_string().unwrap(), "info");
    assert_eq!(v.get("log").get("file").try_into_string().unwrap(), "default.log");
}

struct Failing;

impl ConfigLayer for Failing {
    fn get_name(&self) -> &'static str {
        "Failing"
    }
    fn has_value(&self) -> bool {
        false
    }
    fn read_value(&self) -> Result<Value, BakuninError> {
        Err(BakuninError::IoError("gone".to_string()))
    }
    fn can_write(&self) -> bool {
        false
    }
    fn write_value(&self, _value: &Value) -> Result<(), BakuninError> {
        Err(BakuninError::ConfigLayerError(ConfigLayerError::WriteNotSupported))
    }
}

enum AnyLayer {
    Memory(MemoryConfigLayer),
    Failing(Failing),
}

impl From<MemoryConfigLayer> for AnyLayer {
    fn from(layer: MemoryConfigLayer) -> Self {
        AnyLayer::Memory(layer)
    }
}

impl ConfigLayer for AnyLayer {
    fn get_name(&self) -> &'static str {
        match self {
            AnyLayer::Memory(l) => l.get_name(),
            AnyLayer::Failing(l) => l.get_name(),
        }
    }
    fn has_value(&self) -> bool {
        match self {
            AnyLayer::Memory(l) => l.has_value(),
            AnyLayer::Failing(l) => l.has_value(),
        }
    }
    fn read_value(&self) -> Result<Value, BakuninError> {
        match self {
            AnyLayer::Memory(l) => l.read_value(),
            AnyLayer::Failing(l) => l.read_value(),
        }
    }
    fn can_write(&self) -> bool {
        false
    }
    fn write_value(&self, value: &Value) -> Result<(), BakuninError> {
        match self {
            AnyLayer::Memory(l) => l.write_value(value),
            AnyLayer::Failing(l) => l.write_value(value),
        }
    }
}

fn one(key: &str, value: Value) -> Value {
    let mut map = Value::new_map();
    map.set(key, value).unwrap();
    map
}

#[test]
fn layers_merge_in_the_order_added_and_names_are_kept() {
    let mut config = BakuninConfig::<AnyLayer>::new();
    config.add_memory_layer("first", one("a", 1.into()));
    config.push_layer("broken", AnyLayer::Failing(Failing));
    config.add_memory_layer("second", one("a", 2.into()));
    config.add_memory_layer("first", one("a", 3.into()));

    assert_eq!(
        config.describe(),
        vec![("first", "Memory"), ("broken", "Failing"), ("second", "Memory")]
    );
    assert!(config.get_layer("first").is_some());
    assert!(config.get_layer("third").is_none());
    assert_eq!(config.get_layer("broken").unwrap().get_name(), "Failing");

    let skipped = config.build_value(true).unwrap();
    assert_eq!(skipped.get("a"), Value::Integer(2));
    assert!(matches!(config.build_value(false), Err(BakuninError::IoError(why)) if why == "gone"));
}

#[test]
fn merge_reads_folds_or_stops() {
    let reads = || {
        vec![
            Ok(one("a", 1.into())),
            Err(BakuninError::IoError("x".to_string())),
            Ok(one("b", 2.into())),
        ]
    };
    let merged = merge_reads(reads(), true).unwrap();
    assert_eq!(merged.get("a"), Value::Integer(1));
    assert_eq!(merged.get("b"), Value::Integer(2));
    assert!(matches!(merge_reads(reads(), false), Err(BakuninError::IoError(_))));
    assert_eq!(merge_reads(vec![], false).unwrap(), Value::new_map());
}

#[test]
fn memory_layer_reads_its_value_and_takes_none() {
    let layer = MemoryConfigLayer::new(one("a", 1.into()));
    assert_eq!(layer.get_name(), "Memory");
    assert!(layer.has_value());
    assert!(!layer.can_write());
    assert_eq!(layer.read_value().unwrap(), one("a", 1.into()));
    assert!(matches!(
        layer.write_value(&Value::Null),
        Err(BakuninError::ConfigLayerError(ConfigLayerError::WriteNotSupported))
    ));
}

fn vars(list: &[(&str, &str)]) -> Vec<(String, String)> {
    list.iter().map(|(k, v)| (k.to_string(), v.to_string())).collect()
}

#[test]
fn layer_env_test_load_environment() {
    let snapshot = vars(&[
        ("TEST_value1", "1"),
        ("TEST_value2", "2.5"),
        ("TEST_value3", "true"),
        ("TEST_value4", "data"),
        ("OTHER", "x"),
    ]);

    let layer = EnvironmentConfigLayer::new("TEST_");
    let value = layer.read_value(&snapshot).unwrap();

    assert_eq!(value.get("value1").try_into_i64().unwrap(), 1);
    assert_eq!(value.get("value2").try_into_string().unwrap().parse::<f64>().unwrap(), 2.5);
    assert_eq!(value.get("value3").try_into_bool().unwrap(), true);
    assert_eq!(value.get("value4").try_into_string().unwrap(), "data");
    assert_eq!(value.len(), 4);
}

#[test]
fn environment_layer_trims_and_strips() {
    let layer = EnvironmentConfigLayer::new("  APP_ \t");
    assert_eq!(layer.get_prefix(), "APP_");
    assert_eq!(layer.get_name(), "Environment");
    assert_eq!(layer.to_text(), "EnvironmentConfigLayer[APP_]");
    assert!(layer.has_value());
    assert!(!layer.can_write());
    assert!(layer.write_value(&Value::Null).is_err());
    let value = layer
        .read_value(&vars(&[
            (" APP_a ", "1"),
            ("APP_APP_b", "2"),
            ("APP", "3"),
            ("xAPP_c", "4"),
            ("APP_a", "5"),
            ("APP_", "6"),
        ]))
        .unwrap();
    assert_eq!(value.get("a"), Value::from("5"));
    assert_eq!(value.get("b"), Value::from("2"));
    assert_eq!(value.get(""), Value::from("6"));
    assert_eq!(value.len(), 3);

    let empty = EnvironmentConfigLayer::new("   ");
    assert!(matches!(
        empty.read_value(&vars(&[("a", "b")])),
        Err(BakuninError::ConfigLayerError(ConfigLayerError::ErrorReadingValue(why)))
            if why == "Environment prefix cannot be empty"
    ));
}

#[test]
fn file_layers_are_told_apart_by_extension() {
    assert!(matches!(file_layer_format("/etc/app/config.toml"), Ok(FileExtension::Toml)));
    assert!(matches!(file_layer_format("config.json"), Ok(FileExtension::Json)));
    assert!(matches!(
        file_layer_format("config.yaml"),
        Err(BakuninError::ConfigLayerError(ConfigLayerError::UnsupportedExtension(ext)))
            if ext == "yaml"
    ));
    assert!(matches!(
        file_layer_format("config"),
        Err(BakuninError::ConfigLayerError(ConfigLayerError::UnsupportedExtension(ext)))
            if ext.is_empty()
    ));
    assert!(FileExtension::Toml.match_path("a/b.toml"));
    assert!(!FileExtension::Toml.match_path("a/b.json"));
    assert!(!FileExtension::Custom("toml").match_path("a/b.toml"));
    assert_eq!(FileExtension::Json.as_str(), "json");
    assert_eq!(FileExtension::Custom("ini").as_str(), "ini");
    assert!(matches!(FileExtension::from(".toml"), FileExtension::Toml));
    assert!(matches!(FileExtension::from(".json"), FileExtension::Json));
    assert!(matches!(FileExtension::from("toml"), FileExtension::Custom("toml")));
    assert!(matches!(JsonFileHandler::extension(), FileExtension::Json));
    assert!(matches!(TomlFileHandler::extension(), FileExtension::Toml));
}

enum Described {
    Memory(MemoryConfigLayer),
    Environment(EnvironmentConfigLayer),
    File(FileConfigLayer),
}

impl From<MemoryConfigLayer> for Described {
    fn from(layer: MemoryConfigLayer) -> Self {
        Described::Memory(layer)
    }
}

impl From<EnvironmentConfigLayer> for Described {
    fn from(layer: EnvironmentConfigLayer) -> Self {
        Described::Environment(layer)
    }
}

impl From<FileConfigLayer> for Described {
    fn from(layer: FileConfigLayer) -> Self {
        Described::File(layer)
    }
}

impl ConfigLayer for Described {
    fn get_name(&self) -> &'static str {
        match self {
            Described::Memory(l) => l.get_name(),
            Described::Environment(l) => l.get_name(),
            Described::File(l) => l.get_name(),
        }
    }
    fn has_value(&self) -> bool {
        true
    }
    fn read_value(&self) -> Result<Value, BakuninError> {
        match self {
            Described::Memory(l) => l.read_value(),
            Described::Environment(l) => l.read_value(&vars(&[("P_delay", "2000")])),
            Described::File(l) => Ok(one("file", Value::from(l.get_path().as_str()))),
        }
    }
    fn can_write(&self) -> bool {
        false
    }
    fn write_value(&self, _value: &Value) -> Result<(), BakuninError> {
        Err(BakuninError::ConfigLayerError(ConfigLayerError::WriteNotSupported))
    }
}

#[test]
fn file_and_environment_layers_are_registered() {
    let mut base = Value::new_map();
    base.set("path", "/default".into()).unwrap();
    base.set("delay", 1000.into()).unwrap();
    let mut config = BakuninConfig::<Described>::new()
        .with_memory_layer("default", base)
        .with_file_layer("global", "/etc/app.toml".to_string())
        .unwrap()
        .with_environment_layer("environment", " P_ ");
    assert!(matches!(
        config.add_file_layer("local", "app.ini".to_string()),
        Err(BakuninError::ConfigLayerError(ConfigLayerError::UnsupportedExtension(ext)))
            if ext == "ini"
    ));
    config.add_file_layer("global", "/other/app.json".to_string()).unwrap();
    config.add_environment_layer("environment", "Q_");
    assert_eq!(
        config.describe(),
        vec![("default", "Memory"), ("global", "File"), ("environment", "Environment")]
    );
    assert!(config.get_layer("local").is_none());
    let built = config.build_value(false).unwrap();
    assert_eq!(built.get("path").try_into_string().unwrap(), "/default");
    assert_eq!(built.get("delay").try_into_i64().unwrap(), 2000);
    assert_eq!(built.get("file"), Value::from("/etc/app.toml"));
    let layer = FileConfigLayer::new("/a.json".to_string(), FileExtension::Json);
    assert_eq!(layer.get_path(), "/a.json");
    assert!(!layer.can_write());
}
