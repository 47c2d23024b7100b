use std::collections::BTreeMap;
use std::collections::HashMap;

use config_rs_ng::config::construct::entries_from_config_element;
use config_rs_ng::ConfigElement;
use config_rs_ng::ConfigElementMap;
use config_rs_ng::ConfigError;
use config_rs_ng::FromConfigElement;
use config_rs_ng::FromConfigElementError;

fn type_error<T>(outcome: Result<T, FromConfigElementError>) -> (String, String) {
    match outcome {
        Err(FromConfigElementError::TypeError { expected, found }) => {
            (expected.to_string(), found.to_string())
        }
        _ => panic!("no type error"),
    }
}

fn pair(expected: &str, found: &str) -> (String, String) {
    (expected.to_string(), found.to_string())
}

fn map(entries: Vec<(&str, ConfigElement)>) -> ConfigElement {
    ConfigElement::Dict(ConfigElementMap {
        entries: entries
            .into_iter()
            .map(|(key, value)| (key.to_string(), value))
            .collect(),
    })
}

#[test]
fn scalars_are_read_from_elements_of_their_kind() {
    assert_eq!(bool::from_config_element(&ConfigElement::Bool(true)).unwrap(), true);
    assert_eq!(i8::from_config_element(&ConfigElement::Integer(-5)).unwrap(), -5);
    assert_eq!(i16::from_config_element(&ConfigElement::Integer(-500)).unwrap(), -500);
    assert_eq!(i32::from_config_element(&ConfigElement::Integer(70000)).unwrap(), 70000);
    assert_eq!(i64::from_config_element(&ConfigElement::Integer(1 << 40)).unwrap(), 1 << 40);
    assert_eq!(u8::from_config_element(&ConfigElement::Integer(255)).unwrap(), 255);
    assert_eq!(u16::from_config_element(&ConfigElement::Integer(65535)).unwrap(), 65535);
    assert_eq!(u32::from_config_element(&ConfigElement::Integer(1 << 31)).unwrap(), 1 << 31);
    assert_eq!(u64::from_config_element(&ConfigElement::Integer(1 << 62)).unwrap(), 1 << 62);
    assert_eq!(
        String::from_config_element(&ConfigElement::Str("text".to_string())).unwrap(),
        "text"
    );
}

#[test]
fn wrong_kind_is_a_type_error_that_names_both_kinds() {
    assert_eq!(
        type_error(bool::from_config_element(&ConfigElement::Integer(1))),
        pair("bool", "i8")
    );
    assert_eq!(
        type_error(i8::from_config_element(&ConfigElement::Integer(128))),
        pair("i8", "i16")
    );
    assert_eq!(
        type_error(u8::from_config_element(&ConfigElement::Integer(-1))),
        pair("u8", "i8")
    );
    assert_eq!(
        type_error(u64::from_config_element(&ConfigElement::Integer(-70000))),
        pair("u64", "i32")
    );
    assert_eq!(
        type_error(i64::from_config_element(&ConfigElement::Str(String::new()))),
        pair("i64", "str")
    );
    assert_eq!(
        type_error(String::from_config_element(&ConfigElement::Null)),
        pair("str", "null")
    );
    assert_eq!(
        type_error(i32::from_config_element(&ConfigElement::Float(1.0e300f64.to_bits()))),
        pair("i32", "f64")
    );
    assert_eq!(
        type_error(u16::from_config_element(&ConfigElement::List(vec![]))),
        pair("u16", "list")
    );
    assert_eq!(
        type_error(u32::from_config_element(&map(vec![]))),
        pair("u32", "map")
    );
    assert_eq!(
        type_error(i16::from_config_element(&ConfigElement::Bool(false))),
        pair("i16", "bool")
    );
}

#[test]
fn integer_beyond_i64_is_read_as_a_u64_only() {
    let large = ConfigElement::Unsigned(u64::MAX);
    assert_eq!(u64::from_config_element(&large).unwrap(), u64::MAX);
    assert_eq!(type_error(i64::from_config_element(&large)), pair("i64", "u64"));
    assert_eq!(type_error(u32::from_config_element(&large)), pair("u32", "u64"));
    assert_eq!(type_error(String::from_config_element(&large)), pair("str", "u64"));
    assert_eq!(u8::from_config_element(&ConfigElement::Unsigned(7)).unwrap(), 7);
}

#[test]
fn null_is_read_as_no_value() {
    assert_eq!(
        Option::<i32>::from_config_element(&ConfigElement::Null).unwrap(),
        None
    );
    assert_eq!(
        Option::<i32>::from_config_element(&ConfigElement::Integer(12)).unwrap(),
        Some(12)
    );
    assert_eq!(
        type_error(Option::<i32>::from_config_element(&ConfigElement::Bool(true))),
        pair("i32", "bool")
    );
}

#[test]
fn list_is_read_element_by_element() {
    let list = ConfigElement::List(vec![
        ConfigElement::Integer(1),
        ConfigElement::Integer(2),
        ConfigElement::Integer(3),
    ]);
    assert_eq!(Vec::<u8>::from_config_element(&list).unwrap(), vec![1, 2, 3]);
    assert_eq!(
        Vec::<u8>::from_config_element(&ConfigElement::List(vec![])).unwrap(),
        Vec::<u8>::new()
    );
    let mixed = ConfigElement::List(vec![
        ConfigElement::Integer(1),
        ConfigElement::Str("two".to_string()),
        ConfigElement::Bool(true),
    ]);
    assert_eq!(type_error(Vec::<u8>::from_config_element(&mixed)), pair("u8", "str"));
    assert_eq!(
        type_error(Vec::<u8>::from_config_element(&ConfigElement::Integer(1))),
        pair("list", "i8")
    );
    let nested = ConfigElement::List(vec![
        ConfigElement::List(vec![ConfigElement::Null, ConfigElement::Integer(4)]),
        ConfigElement::List(vec![]),
    ]);
    assert_eq!(
        Vec::<Vec<Option<i64>>>::from_config_element(&nested).unwrap(),
        vec![vec![None, Some(4)], vec![]]
    );
}

#[test]
fn map_is_read_entry_by_entry() {
    let table = map(vec![
        ("a", ConfigElement::Integer(1)),
        ("b", ConfigElement::Integer(2)),
    ]);
    let pairs = entries_from_config_element::<i64>(&table).unwrap();
    assert_eq!(pairs, vec![("a".to_string(), 1), ("b".to_string(), 2)]);

    let hashed = HashMap::<String, i64>::from_config_element(&table).unwrap();
    assert_eq!(hashed.len(), 2);
    assert_eq!(hashed.get("a"), Some(&1));
    assert_eq!(hashed.get("b"), Some(&2));

    let ordered = BTreeMap::<String, i64>::from_config_element(&table).unwrap();
    assert_eq!(
        ordered.into_iter().collect::<Vec<_>>(),
        vec![("a".to_string(), 1), ("b".to_string(), 2)]
    );

    let broken = map(vec![
        ("a", ConfigElement::Integer(1)),
        ("b", ConfigElement::Bool(true)),
    ]);
    assert_eq!(
        type_error(entries_from_config_element::<i64>(&broken)),
        pair("i64", "bool")
    );
    assert_eq!(
        type_error(HashMap::<String, i64>::from_config_element(&broken)),
        pair("i64", "bool")
    );
    assert_eq!(
        type_error(BTreeMap::<String, i64>::from_config_element(&broken)),
        pair("i64", "bool")
    );
    assert_eq!(
        type_error(HashMap::<String, i64>::from_config_element(&ConfigElement::Null)),
        pair("map", "null")
    );
    assert_eq!(
        type_error(BTreeMap::<String, i64>::from_config_element(&ConfigElement::List(vec![]))),
        pair("map", "list")
    );
}

#[test]
fn first_entry_of_a_key_is_the_one_that_a_map_keeps() {
    let table = map(vec![
        ("a", ConfigElement::Integer(1)),
        ("a", ConfigElement::Integer(2)),
    ]);
    let hashed = HashMap::<String, i64>::from_config_element(&table).unwrap();
    assert_eq!(hashed.get("a"), Some(&1));
    let ordered = BTreeMap::<String, i64>::from_config_element(&table).unwrap();
    assert_eq!(ordered.get("a"), Some(&1));
}

#[test]
fn lookup_error_converts_into_the_error_of_reading() {
    let error: FromConfigElementError = ConfigError::NotLoaded.into();
    assert!(matches!(
        error,
        FromConfigElementError::ConfigError(ConfigError::NotLoaded)
    ));
}
