use config_rs_ng::element::json::element_from_json;
use config_rs_ng::element::toml::element_from_toml;
use config_rs_ng::Config;
use config_rs_ng::ConfigElement;
use config_rs_ng::ConfigObject;
use config_rs_ng::ConfigSource;
use config_rs_ng::ConfigSourceDescription;
use config_rs_ng::ElementFormat;
use config_rs_ng::SourceError;

struct TestSource(ConfigElement, bool);

impl ConfigSource for TestSource {
    fn load(&self) -> Result<ConfigObject, SourceError> {
        let format = if self.1 {
            ElementFormat::Json
        } else {
            ElementFormat::Toml
        };
        Ok(ConfigObject::new(self.0.clone(), ConfigSourceDescription::Unknown, format))
    }
}

fn json_source(text: &str) -> TestSource {
    let json: serde_json::Value = serde_json::from_str(text).unwrap();
    TestSource(element_from_json(&json), true)
}

fn toml_source(text: &str) -> TestSource {
    let toml: toml::Value = toml::from_str(text).unwrap();
    TestSource(element_from_toml(&toml), false)
}

#[test]
fn mod_test_compile_loading() {
    let _c = Config::builder()
        .load(Box::new(TestSource(
            element_from_toml(&toml::Value::String("".to_string())),
            false,
        )))
        .build()
        .unwrap();
}

#[test]
fn mod_test_load_json() {
    let source = json_source(
        r#"
            { "key": "value" }
        "#,
    );

    let _c = Config::builder().load(Box::new(source)).build().unwrap();
}

#[test]
fn mod_test_load_json_get_value() {
    let source = json_source(
        r#"
            { "key": "value" }
        "#,
    );

    let c = Config::builder().load(Box::new(source)).build().unwrap();

    let r = c.layers().get("key");
    assert!(r.is_ok());
    let r = r.unwrap();
    assert!(r.is_some());
    let r = r.unwrap();
    assert!(r.is_str());
    assert_eq!(r.as_str().unwrap(), "value");
}

#[test]
fn mod_test_layered_json_config() {
    let source1 = json_source(
        r#"
            { "key1": "value1" }
        "#,
    );
    let source2 = json_source(
        r#"
            { "key1": "value2", "key2": "value3" }
        "#,
    );

    let c = Config::builder()
        .load(Box::new(source1))
        .load(Box::new(source2))
        .build()
        .unwrap();

    let r = c.layers().get("key1");
    assert!(r.is_ok());
    let r = r.unwrap();
    assert!(r.is_some());
    let r = r.unwrap();
    assert!(r.is_str());
    assert_eq!(r.as_str().unwrap(), "value2");

    let r = c.layers().get("key2");
    assert!(r.is_ok());
    let r = r.unwrap();
    assert!(r.is_some());
    let r = r.unwrap();
    assert!(r.is_str());
    assert_eq!(r.as_str().unwrap(), "value3");
}

#[test]
fn mod_test_layered_json_toml_config() {
    let source1 = json_source(
        r#"
            { "key1": "value1" }
        "#,
    );
    let source2 = toml_source(
        r#"
            key1 = "value2"
            key2 = "value3"
        "#,
    );

    let c = Config::builder()
        .load(Box::new(source1))
        .load(Box::new(source2))
        .build()
        .unwrap();

    let r = c.layers().get("key1");
    assert!(r.is_ok());
    let r = r.unwrap();
    assert!(r.is_some());
    let r = r.unwrap();
    assert!(r.is_str());
    assert_eq!(r.as_str().unwrap(), "value2");

    let r = c.layers().get("key2");
    assert!(r.is_ok());
    let r = r.unwrap();
    assert!(r.is_some());
    let r = r.unwrap();
    assert!(r.is_str());
    assert_eq!(r.as_str().unwrap(), "value3");
}

#[test]
fn test_nested_toml_config() {
    let source = toml_source(
        r#"
            key1 = "value2"

            [table]
            key2 = "value3"
        "#,
    );

    let c = Config::builder().load(Box::new(source)).build().unwrap();

    let r = c.get("key1");
    assert!(r.is_ok());
    let r = r.unwrap();
    assert!(r.is_some());
    let r = r.unwrap();
    assert!(r.is_str());
    assert_eq!(r.as_str().unwrap(), "value2");

    let r = c.get("table.key2");
    assert!(r.is_ok());
    let r = r.unwrap();
    assert!(r.is_some());
    let r = r.unwrap();
    assert!(r.is_str());
    assert_eq!(r.as_str().unwrap(), "value3");
}

#[test]
fn test_nested_toml_config_with_index() {
    let source = toml_source(
        r#"
            [[key]]
            k = "a"

            [[key]]
            k = "b"
        "#,
    );

    let c = Config::builder().load(Box::new(source)).build().unwrap();

    let r = c.get("key.0.k");
    assert!(r.is_ok());
    let r = r.unwrap();
    assert!(r.is_some());
    let r = r.unwrap();
    assert!(r.is_str());
    assert_eq!(r.as_str().unwrap(), "a");
}

#[test]
fn nested_json_path_with_index() {
    let source = json_source(r#"{"key": [{"k":"a"},{"k":"b"}]}"#);
    let c = Config::builder().load(Box::new(source)).build().unwrap();
    assert_eq!(c.get("key.0.k").unwrap().unwrap().as_str(), Some("a"));
    assert_eq!(c.get("key.1.k").unwrap().unwrap().as_str(), Some("b"));
    assert!(c.get("key.2.k").unwrap().is_none());
    assert!(c.get("key.0.missing").unwrap().is_none());
}

#[test]
fn build_without_sources_has_no_layers() {
    let c = Config::builder().build().unwrap();
    assert_eq!(c.layers().len(), 0);
    assert!(c.get("anything").unwrap().is_none());
}

#[test]
fn overwrites_come_first_and_defaults_last_in_the_stack() {
    let c = Config::builder()
        .load_default(Box::new(json_source(r#"{"k": "default", "d": 1}"#)))
        .load(Box::new(json_source(r#"{"k": "layer", "l": 2}"#)))
        .load_overwrite(Box::new(json_source(r#"{"k": "overwrite", "o": 3}"#)))
        .build()
        .unwrap();
    assert_eq!(c.layers().len(), 3);
    // The stack is read from its end, and the defaults are stacked last.
    assert_eq!(c.get("k").unwrap().unwrap().as_str(), Some("default"));
    assert_eq!(c.get("d").unwrap().unwrap().as_i64(), Some(1));
    assert_eq!(c.get("l").unwrap().unwrap().as_i64(), Some(2));
    assert_eq!(c.get("o").unwrap().unwrap().as_i64(), Some(3));
}
