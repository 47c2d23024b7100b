use config_rs_ng::AccessType;
use config_rs_ng::Accessor;
use config_rs_ng::ConfigElement;
use config_rs_ng::ConfigElementListType;
use config_rs_ng::ConfigElementMap;
use config_rs_ng::ConfigElementMapType;
use config_rs_ng::ConfigElementType;
use config_rs_ng::ConfigObjectAccessError;

fn map(entries: Vec<(&str, ConfigElement)>) -> ConfigElement {
    ConfigElement::Dict(ConfigElementMap {
        entries: entries
            .into_iter()
            .map(|(key, value)| (key.to_string(), value))
            .collect(),
    })
}

fn key(name: &str) -> AccessType {
    AccessType::Key(name.to_string())
}

#[test]
fn kind_of_an_integer_goes_by_its_range() {
    assert_eq!(ConfigElement::Integer(0).get_type(), ConfigElementType::I8);
    assert_eq!(ConfigElement::Integer(127).get_type(), ConfigElementType::I8);
    assert_eq!(ConfigElement::Integer(-128).get_type(), ConfigElementType::I8);
    assert_eq!(ConfigElement::Integer(128).get_type(), ConfigElementType::I16);
    assert_eq!(ConfigElement::Integer(-129).get_type(), ConfigElementType::I16);
    assert_eq!(ConfigElement::Integer(32767).get_type(), ConfigElementType::I16);
    assert_eq!(ConfigElement::Integer(32768).get_type(), ConfigElementType::I32);
    assert_eq!(ConfigElement::Integer(2147483647).get_type(), ConfigElementType::I32);
    assert_eq!(ConfigElement::Integer(2147483648).get_type(), ConfigElementType::I64);
    assert_eq!(ConfigElement::Integer(i64::MIN).get_type(), ConfigElementType::I64);
    assert_eq!(ConfigElement::Integer(i64::MAX).get_type(), ConfigElementType::I64);
}

#[test]
fn kind_of_an_integer_goes_by_its_value_however_it_is_held() {
    assert_eq!(ConfigElement::Unsigned(0).get_type(), ConfigElementType::I8);
    assert_eq!(ConfigElement::Unsigned(127).get_type(), ConfigElementType::I8);
    assert_eq!(ConfigElement::Unsigned(128).get_type(), ConfigElementType::I16);
    assert_eq!(ConfigElement::Unsigned(70000).get_type(), ConfigElementType::I32);
    assert_eq!(ConfigElement::Unsigned(i64::MAX as u64).get_type(), ConfigElementType::I64);
    assert_eq!(ConfigElement::Unsigned(i64::MAX as u64 + 1).get_type(), ConfigElementType::U64);
    assert_eq!(ConfigElement::Unsigned(u64::MAX).get_type(), ConfigElementType::U64);
    let held = ConfigElement::Unsigned(200);
    assert_eq!(held.as_u8(), Some(200));
    assert_eq!(held.as_i8(), None);
    assert_eq!(held.as_i64(), Some(200));
    assert_eq!(held.as_u64(), Some(200));
    let large = ConfigElement::Unsigned(u64::MAX);
    assert_eq!(large.as_u64(), Some(u64::MAX));
    assert_eq!(large.as_i64(), None);
    assert_eq!(large.as_u32(), None);
    assert!(large.is_u64() && !large.is_i64() && !large.is_u32());
    assert_eq!(large.clone().as_u64(), Some(u64::MAX));
}

#[test]
fn kind_of_the_other_values() {
    assert_eq!(ConfigElement::Null.get_type(), ConfigElementType::Null);
    assert_eq!(ConfigElement::Bool(false).get_type(), ConfigElementType::Bool);
    assert_eq!(ConfigElement::Str(String::new()).get_type(), ConfigElementType::Str);
    assert_eq!(ConfigElement::List(vec![]).get_type(), ConfigElementType::List);
    assert_eq!(map(vec![]).get_type(), ConfigElementType::Dict);
}

#[test]
fn kind_of_a_float_goes_by_the_range_of_single_precision() {
    let float = |f: f64| ConfigElement::Float(f.to_bits());
    assert_eq!(float(0.0).get_type(), ConfigElementType::F32);
    assert_eq!(float(-0.0).get_type(), ConfigElementType::F32);
    assert_eq!(float(1.5).get_type(), ConfigElementType::F32);
    assert_eq!(float(-1.0e38).get_type(), ConfigElementType::F32);
    assert_eq!(float(1.0e39).get_type(), ConfigElementType::F64);
    assert_eq!(float(-1.0e39).get_type(), ConfigElementType::F64);
    assert_eq!(float(f32::MAX as f64).get_type(), ConfigElementType::F32);
    assert_eq!(float(f32::MIN as f64).get_type(), ConfigElementType::F32);
    assert_eq!(float(f64::INFINITY).get_type(), ConfigElementType::F64);
    assert_eq!(float(f64::NEG_INFINITY).get_type(), ConfigElementType::F64);
    assert_eq!(float(f64::NAN).get_type(), ConfigElementType::F64);
    let above = f64::from_bits((f32::MAX as f64).to_bits() + 1);
    assert_eq!(float(above).get_type(), ConfigElementType::F64);
    assert_eq!(float(-above).get_type(), ConfigElementType::F64);
    assert!(!float(above).is_f32() && float(above).is_f64());
    let edge = f32::MAX as f64;
    assert!(float(edge).is_f32() && float(edge).is_f64());
    assert!(!float(1.0e39).is_f32() && float(1.0e39).is_f64());
}

#[test]
fn the_range_question_on_bits_agrees_with_the_comparison_of_floats() {
    let samples = [
        0.0f64, -0.0, 1.0, -1.0, 3.4e38, -3.4e38, 3.5e38, -3.5e38, 1.0e-320, f64::MAX, f64::MIN,
        f64::MIN_POSITIVE, f64::INFINITY, f64::NEG_INFINITY, f64::NAN, f32::MAX as f64,
        f32::MIN as f64, 123456.789,
    ];
    for f in samples {
        let expected = f <= (f32::MAX as f64) && f >= (f32::MIN as f64);
        assert_eq!(ConfigElement::Float(f.to_bits()).is_f32(), expected);
    }
}

#[test]
fn integers_are_handed_out_where_they_fit() {
    let small = ConfigElement::Integer(200);
    assert_eq!(small.as_i8(), None);
    assert_eq!(small.as_u8(), Some(200));
    assert_eq!(small.as_i16(), Some(200));
    assert_eq!(small.as_u64(), Some(200));
    assert!(!small.is_i8() && small.is_u8() && small.is_i64());
    let negative = ConfigElement::Integer(-1);
    assert_eq!(negative.as_i8(), Some(-1));
    assert_eq!(negative.as_u8(), None);
    assert_eq!(negative.as_u16(), None);
    assert_eq!(negative.as_u32(), None);
    assert_eq!(negative.as_u64(), None);
    assert_eq!(negative.as_i64(), Some(-1));
    let zero = ConfigElement::Integer(0);
    assert_eq!(zero.as_u8(), Some(0));
    assert_eq!(zero.as_u64(), Some(0));
    let edge = ConfigElement::Integer(255);
    assert_eq!(edge.as_u8(), Some(255));
    assert_eq!(ConfigElement::Integer(256).as_u8(), None);
    assert_eq!(ConfigElement::Integer(65535).as_u16(), Some(65535));
    assert_eq!(ConfigElement::Integer(65536).as_u16(), None);
    assert_eq!(ConfigElement::Integer(4294967295).as_u32(), Some(4294967295));
    assert_eq!(ConfigElement::Integer(4294967296).as_u32(), None);
    assert_eq!(ConfigElement::Integer(-32768).as_i16(), Some(-32768));
    assert_eq!(ConfigElement::Integer(-32769).as_i16(), None);
    assert_eq!(ConfigElement::Integer(-2147483648).as_i32(), Some(-2147483648));
    assert_eq!(ConfigElement::Integer(-2147483649).as_i32(), None);
    assert_eq!(ConfigElement::Integer(i64::MAX).as_u64(), Some(i64::MAX as u64));
    assert_eq!(ConfigElement::Str("5".to_string()).as_i64(), None);
    assert_eq!(ConfigElement::Bool(true).as_i8(), None);
}

#[test]
fn scalars_are_handed_out_by_their_own_accessor_only() {
    assert_eq!(ConfigElement::Bool(true).as_bool(), Some(true));
    assert_eq!(ConfigElement::Integer(1).as_bool(), None);
    assert_eq!(ConfigElement::Str("a".to_string()).as_str(), Some("a"));
    assert_eq!(ConfigElement::Null.as_str(), None);
    assert_eq!(ConfigElement::Float(7).as_f64_bits(), Some(7));
    assert_eq!(ConfigElement::Integer(7).as_f64_bits(), None);
    assert!(ConfigElement::Null.is_null());
    assert!(!ConfigElement::Bool(false).is_null());
    assert!(ConfigElement::List(vec![]).as_list().is_some());
    assert!(ConfigElement::List(vec![]).as_map().is_none());
    assert!(map(vec![]).as_map().is_some());
    assert!(map(vec![]).as_list().is_none());
}

#[test]
fn list_and_map_facades() {
    let list = vec![ConfigElement::Integer(1), ConfigElement::Integer(2)];
    assert_eq!(ConfigElementListType::len(&list), 2);
    assert!(!ConfigElementListType::is_empty(&list));
    assert_eq!(list.at_index(1).unwrap().as_i64(), Some(2));
    assert!(list.at_index(2).is_none());
    let empty: Vec<ConfigElement> = vec![];
    assert!(ConfigElementListType::is_empty(&empty));

    let table = ConfigElementMap {
        entries: vec![
            ("a".to_string(), ConfigElement::Integer(1)),
            ("b".to_string(), ConfigElement::Integer(2)),
            ("a".to_string(), ConfigElement::Integer(3)),
        ],
    };
    assert_eq!(table.get("a").unwrap().as_i64(), Some(1));
    assert_eq!(table.get("b").unwrap().as_i64(), Some(2));
    assert!(table.get("c").is_none());
    assert!(table.contains_key("a"));
    assert!(!table.contains_key(""));
    assert_eq!(table.keys(), vec!["a".to_string(), "b".to_string(), "a".to_string()]);
    let values: Vec<Option<i64>> = table.values().iter().map(|v| v.as_i64()).collect();
    assert_eq!(values, vec![Some(1), Some(2), Some(3)]);
}

#[test]
fn descent_moves_the_cursor_past_every_segment_that_led_on() {
    let tree = map(vec![(
        "a",
        ConfigElement::List(vec![map(vec![("k", ConfigElement::Integer(9))])]),
    )]);
    let mut accessor = Accessor::new(vec![key("a"), AccessType::Index(0), key("k")]);
    let found = tree.access(&mut accessor).unwrap().unwrap();
    assert_eq!(found.as_i64(), Some(9));
    assert!(accessor.current().is_none());

    let mut short = Accessor::new(vec![key("a"), AccessType::Index(4), key("k")]);
    assert!(tree.access(&mut short).unwrap().is_none());
    assert!(matches!(short.current(), Some(AccessType::Index(4))));

    let mut from_second = Accessor::new(vec![key("ignored"), key("a")]);
    from_second.advance();
    let found = tree.access(&mut from_second).unwrap().unwrap();
    assert!(found.is_list());
}

#[test]
fn descent_without_a_segment_is_an_error() {
    let tree = map(vec![("a", ConfigElement::Null)]);
    let mut empty = Accessor::new(vec![]);
    assert!(matches!(
        tree.access(&mut empty),
        Err(ConfigObjectAccessError::NoAccessor)
    ));
    let mut spent = Accessor::new(vec![key("a")]);
    spent.advance();
    assert!(matches!(
        tree.access(&mut spent),
        Err(ConfigObjectAccessError::NoAccessor)
    ));
}

#[test]
fn every_misfit_has_its_own_error() {
    let with_key = |element: ConfigElement| {
        let mut accessor = Accessor::new(vec![key("x")]);
        element.access(&mut accessor).map(|_| ()).unwrap_err()
    };
    let with_index = |element: ConfigElement| {
        let mut accessor = Accessor::new(vec![AccessType::Index(7)]);
        element.access(&mut accessor).map(|_| ()).unwrap_err()
    };
    let float = |f: f64| ConfigElement::Float(f.to_bits());
    assert!(matches!(with_key(ConfigElement::Null), ConfigObjectAccessError::AccessWithKeyOnNull(k) if k == "x"));
    assert!(matches!(with_key(ConfigElement::Bool(true)), ConfigObjectAccessError::AccessWithKeyOnBool(k) if k == "x"));
    assert!(matches!(with_key(ConfigElement::Integer(1)), ConfigObjectAccessError::AccessWithKeyOnI8(k) if k == "x"));
    assert!(matches!(with_key(ConfigElement::Integer(1000)), ConfigObjectAccessError::AccessWithKeyOnI16(k) if k == "x"));
    assert!(matches!(with_key(ConfigElement::Integer(100000)), ConfigObjectAccessError::AccessWithKeyOnI32(k) if k == "x"));
    assert!(matches!(with_key(ConfigElement::Integer(1 << 40)), ConfigObjectAccessError::AccessWithKeyOnI64(k) if k == "x"));
    assert!(matches!(with_key(ConfigElement::Unsigned(u64::MAX)), ConfigObjectAccessError::AccessWithKeyOnU64(k) if k == "x"));
    assert!(matches!(with_index(ConfigElement::Unsigned(u64::MAX)), ConfigObjectAccessError::AccessWithIndexOnU64(7)));
    assert!(matches!(with_key(ConfigElement::Unsigned(5)), ConfigObjectAccessError::AccessWithKeyOnI8(k) if k == "x"));
    assert!(matches!(with_key(float(1.0)), ConfigObjectAccessError::AccessWithKeyOnF32(k) if k == "x"));
    assert!(matches!(with_key(float(1.0e300)), ConfigObjectAccessError::AccessWithKeyOnF64(k) if k == "x"));
    assert!(matches!(with_key(ConfigElement::Str("s".to_string())), ConfigObjectAccessError::AccessWithKeyOnStr(k) if k == "x"));
    assert!(matches!(with_key(ConfigElement::List(vec![])), ConfigObjectAccessError::AccessWithKeyOnList(k) if k == "x"));
    assert!(matches!(with_index(ConfigElement::Null), ConfigObjectAccessError::AccessWithIndexOnNull(7)));
    assert!(matches!(with_index(ConfigElement::Bool(true)), ConfigObjectAccessError::AccessWithIndexOnBool(7)));
    assert!(matches!(with_index(ConfigElement::Integer(1)), ConfigObjectAccessError::AccessWithIndexOnI8(7)));
    assert!(matches!(with_index(ConfigElement::Integer(1000)), ConfigObjectAccessError::AccessWithIndexOnI16(7)));
    assert!(matches!(with_index(ConfigElement::Integer(100000)), ConfigObjectAccessError::AccessWithIndexOnI32(7)));
    assert!(matches!(with_index(ConfigElement::Integer(1 << 40)), ConfigObjectAccessError::AccessWithIndexOnI64(7)));
    assert!(matches!(with_index(float(1.0)), ConfigObjectAccessError::AccessWithIndexOnF32(7)));
    assert!(matches!(with_index(float(1.0e300)), ConfigObjectAccessError::AccessWithIndexOnF64(7)));
    assert!(matches!(with_index(ConfigElement::Str("s".to_string())), ConfigObjectAccessError::AccessWithIndexOnStr(7)));
    assert!(matches!(with_index(map(vec![])), ConfigObjectAccessError::AccessWithIndexOnMap(7)));
}

#[test]
fn clone_copies_the_whole_tree() {
    let tree = map(vec![(
        "a",
        ConfigElement::List(vec![ConfigElement::Str("x".to_string()), ConfigElement::Float(3)]),
    )]);
    let copy = tree.clone();
    let list = copy.as_map().unwrap().get("a").unwrap().as_list().unwrap();
    assert_eq!(list.len(), 2);
    assert_eq!(list[0].as_str(), Some("x"));
    assert_eq!(list[1].as_f64_bits(), Some(3));
}

#[test]
fn kinds_have_names() {
    assert_eq!(ConfigElementType::Null.name(), "null");
    assert_eq!(ConfigElementType::Bool.name(), "bool");
    assert_eq!(ConfigElementType::I8.name(), "i8");
    assert_eq!(ConfigElementType::U64.name(), "u64");
    assert_eq!(ConfigElementType::F32.name(), "f32");
    assert_eq!(ConfigElementType::Str.name(), "str");
    assert_eq!(ConfigElementType::List.name(), "list");
    assert_eq!(ConfigElementType::Dict.name(), "map");
}
