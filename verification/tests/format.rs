use config_rs_ng::element::nesting::measure_nesting;
use config_rs_ng::element::toml::TOML_NESTING_LIMIT;
use config_rs_ng::Config;
use config_rs_ng::ConfigElement;
use config_rs_ng::ConfigElementMap;
use config_rs_ng::ConfigElementMapType;
use config_rs_ng::ConfigElementType;
use config_rs_ng::ConfigSource;
use config_rs_ng::ElementFormat;
use config_rs_ng::FormatParser;
use config_rs_ng::JsonFormatParser;
use config_rs_ng::SourceError;
use config_rs_ng::StringSource;
use config_rs_ng::TomlFormatParser;

// JSON configuration
const CONFIGURATION_LAYER_A: &str = r#"
{
    "key1": "valueA",
    "key2": "valueA"
}
"#;

// custom configuration format
const CONFIGURATION_LAYER_B: &str = r#"
mycustomformatkey(2) = valueB
mycustomformatkey(3) = valueB
"#;

// A parser for our custom config format
#[derive(Debug)]
struct CustomFormatParser;

impl FormatParser for CustomFormatParser {
    // This parser is a quick one that works only for the exact example
    // configuration written down above
    fn parse(buffer: Vec<u8>) -> Result<ConfigElement, SourceError> {
        let s = String::from_utf8(buffer.to_vec()).unwrap();
        let entries = s
            .lines()
            .skip_while(|l| l.is_empty())
            .map(|line| {
                let num = line
                    .split('(')
                    .nth(1)
                    .expect("Splitting at '('")
                    .split(')')
                    .next()
                    .expect("Element after '('");
                let key = format!("key{}", num);
                let val = line.split(" = ").nth(1).unwrap().to_string();
                (key, ConfigElement::Str(val))
            })
            .collect();
        Ok(ConfigElement::Dict(ConfigElementMap { entries }))
    }

    fn format() -> ElementFormat {
        custom()
    }
}

fn custom() -> ElementFormat {
    ElementFormat::Custom("mycustomformat".to_string())
}

fn layered() -> Config {
    // Lets build a configuration object
    Config::builder()
        // Lets load CONFIGURATION_LAYER_A from string using the JSON format
        // parser of this crate
        .load(Box::new({
            StringSource::<JsonFormatParser>::new(CONFIGURATION_LAYER_A.to_string())
                .expect("building StringSource")
        }))
        // Lets load CONFIGURATION_LAYER_B from string using our custom format
        // parser that we have implemented above
        .load(Box::new({
            StringSource::<CustomFormatParser>::new(CONFIGURATION_LAYER_B.to_string())
                .expect("building StringSource")
        }))
        .build()
        .expect("Building configuration object")
}

#[test]
fn test_format_custom() {
    let config = layered();

    // Now lets access our configuration object

    {
        // Lets get a JSON value by accessing "key1" from above
        if let Some(json_object) = config
            .layers()
            .get_as("key1", &ElementFormat::Json)
            .expect("Accessing configuration object")
        {
            let json_object: &ConfigElement = json_object; // enforce type
            assert!(json_object.is_str());
            assert_eq!(json_object.as_str().unwrap(), "valueA");
        } else {
            panic!("Expected 'key1' to hold a JSON object");
        }
    }
    {
        // Lets get a value of the custom format by accessing "key2" from above
        //
        // This value has shadowed the "key2" from the JSON part of our config
        if let Some(custom_object) = config
            .layers()
            .get_as("key2", &custom())
            .expect("Accessing configuration object")
        {
            let custom_object: &ConfigElement = custom_object; // enforce type
            assert!(custom_object.is_str());
            assert_eq!(custom_object.as_str().unwrap(), "valueB");
        } else {
            panic!("Expected 'key2' to hold a CUSTOM object");
        }
    }
}

#[test]
fn typed_lookup_passes_over_a_layer_of_another_format() {
    let config = layered();
    // The custom layer holds "key2" too and lies above, but it is no JSON.
    let below = config.layers().get_as("key2", &ElementFormat::Json).unwrap().unwrap();
    assert_eq!(below.as_str(), Some("valueA"));
    // Without a format the custom layer answers.
    assert_eq!(config.layers().get("key2").unwrap().unwrap().as_str(), Some("valueB"));
    // "key1" is held by the JSON layer only, "key3" by the custom layer only.
    assert!(config.layers().get_as("key1", &custom()).unwrap().is_none());
    assert!(config.layers().get_as("key3", &ElementFormat::Json).unwrap().is_none());
    assert_eq!(
        config.layers().get_as("key3", &custom()).unwrap().unwrap().as_str(),
        Some("valueB")
    );
    // No layer is of these formats.
    assert!(config.layers().get_as("key2", &ElementFormat::Toml).unwrap().is_none());
    let other = ElementFormat::Custom("another".to_string());
    assert!(config.layers().get_as("key2", &other).unwrap().is_none());
}

#[test]
fn formats_are_the_same_where_their_names_are() {
    assert!(ElementFormat::Json.same(&ElementFormat::Json));
    assert!(ElementFormat::Toml.same(&ElementFormat::Toml));
    assert!(!ElementFormat::Json.same(&ElementFormat::Toml));
    assert!(custom().same(&custom()));
    assert!(!custom().same(&ElementFormat::Custom("another".to_string())));
    assert!(!custom().same(&ElementFormat::Json));
    assert!(JsonFormatParser::format().same(&ElementFormat::Json));
    assert!(TomlFormatParser::format().same(&ElementFormat::Toml));
}

#[test]
fn test_json_string_source() {
    let source = "{}";

    let source = StringSource::<JsonFormatParser>::new(source.to_string()).unwrap();
    let _object = source.load().unwrap();
}

#[test]
fn json_parser_reads_every_kind_of_value() {
    let text = r#"{"n": null, "b": true, "i": -3, "f": 1.5, "s": "x", "l": [1, "two"], "m": {"k": false}}"#;
    let element = JsonFormatParser::parse(text.as_bytes().to_vec()).unwrap();
    let map = element.as_map().unwrap();
    assert_eq!(map.entries.len(), 7);
    let find = |key: &str| {
        map.entries
            .iter()
            .find(|entry| entry.0 == key)
            .map(|entry| &entry.1)
            .unwrap()
    };
    assert!(find("n").is_null());
    assert_eq!(find("b").as_bool(), Some(true));
    assert_eq!(find("i").as_i64(), Some(-3));
    assert_eq!(find("f").as_f64_bits(), Some(1.5f64.to_bits()));
    assert_eq!(find("s").as_str(), Some("x"));
    let list = find("l").as_list().unwrap();
    assert_eq!(list.len(), 2);
    assert_eq!(list[0].as_i64(), Some(1));
    assert_eq!(list[1].as_str(), Some("two"));
    let inner = find("m").as_map().unwrap();
    assert_eq!(inner.entries.len(), 1);
    assert_eq!(inner.entries[0].0, "k");
    assert_eq!(inner.entries[0].1.as_bool(), Some(false));
}

#[test]
fn json_integer_beyond_i64_is_held_and_is_a_u64() {
    let element = JsonFormatParser::parse(b"18446744073709551615".to_vec()).unwrap();
    assert_eq!(element.get_type(), ConfigElementType::U64);
    assert_eq!(element.as_u64(), Some(u64::MAX));
    assert_eq!(element.as_i64(), None);
    assert_eq!(element.as_u32(), None);
    assert_eq!(element.as_f64_bits(), None);
    assert!(element.is_u64() && !element.is_i64() && !element.is_f64());

    let element = JsonFormatParser::parse(b"9223372036854775808".to_vec()).unwrap();
    assert_eq!(element.get_type(), ConfigElementType::U64);
    assert_eq!(element.as_u64(), Some(9223372036854775808));

    let element = JsonFormatParser::parse(b"9223372036854775807".to_vec()).unwrap();
    assert_eq!(element.get_type(), ConfigElementType::I64);
    assert_eq!(element.as_u64(), Some(9223372036854775807));
    assert_eq!(element.as_i64(), Some(i64::MAX));

    let element = JsonFormatParser::parse(b"-9223372036854775808".to_vec()).unwrap();
    assert_eq!(element.get_type(), ConfigElementType::I64);
    assert_eq!(element.as_i64(), Some(i64::MIN));
    assert_eq!(element.as_u64(), None);
}

#[test]
fn json_number_beyond_u64_is_read_as_a_float() {
    let element = JsonFormatParser::parse(b"18446744073709551616".to_vec()).unwrap();
    assert_eq!(element.as_u64(), None);
    assert_eq!(element.as_f64_bits(), Some(18446744073709551616.0f64.to_bits()));
    let element = JsonFormatParser::parse(b"-9223372036854775809".to_vec()).unwrap();
    assert_eq!(element.as_i64(), None);
    assert_eq!(element.as_f64_bits(), Some((-9223372036854775809.0f64).to_bits()));
}

#[test]
fn json_that_does_not_parse_is_a_json_error() {
    let parsed = JsonFormatParser::parse(b"{ not json".to_vec());
    assert!(matches!(parsed, Err(SourceError::JsonParserError(_))));
}

#[test]
fn toml_parser_reads_every_kind_of_value() {
    let text = r#"
b = true
i = -3
f = 1.5
s = "x"
l = [1, 2]
d = 1979-05-27T07:32:00Z

[m]
k = false
"#;
    let element = TomlFormatParser::parse(text.as_bytes().to_vec()).unwrap();
    let map = element.as_map().unwrap();
    assert_eq!(map.entries.len(), 7);
    let find = |key: &str| {
        map.entries
            .iter()
            .find(|entry| entry.0 == key)
            .map(|entry| &entry.1)
            .unwrap()
    };
    assert_eq!(find("b").as_bool(), Some(true));
    assert_eq!(find("i").as_i64(), Some(-3));
    assert_eq!(find("f").as_f64_bits(), Some(1.5f64.to_bits()));
    assert_eq!(find("s").as_str(), Some("x"));
    let list = find("l").as_list().unwrap();
    assert_eq!(list.len(), 2);
    assert_eq!(list[1].as_i64(), Some(2));
    // A datetime has no kind of its own and is read as its text.
    assert_eq!(find("d").as_str(), Some("1979-05-27T07:32:00Z"));
    let inner = find("m").as_map().unwrap();
    assert_eq!(inner.entries.len(), 1);
    assert_eq!(inner.entries[0].0, "k");
    assert_eq!(inner.entries[0].1.as_bool(), Some(false));
}

#[test]
fn toml_that_does_not_parse_is_a_toml_error() {
    let parsed = TomlFormatParser::parse(b"= = =".to_vec());
    assert!(matches!(parsed, Err(SourceError::TomlParserError(_))));
    let not_utf8 = TomlFormatParser::parse(vec![0xff, 0xfe]);
    assert!(matches!(not_utf8, Err(SourceError::TomlParserError(_))));
}

#[test]
fn string_source_is_described_as_a_string() {
    let source = StringSource::<JsonFormatParser>::new(r#"{"a": 1}"#.to_string()).unwrap();
    let object = source.load().unwrap();
    assert!(matches!(
        object.description(),
        config_rs_ng::ConfigSourceDescription::Custom(label) if label == "String"
    ));
    assert!(object.representation().same(&ElementFormat::Json));
    let broken = StringSource::<JsonFormatParser>::new("{".to_string()).unwrap();
    assert!(matches!(broken.load(), Err(SourceError::JsonParserError(_))));
}

#[test]
fn nesting_counts_brackets_outside_of_strings_and_comments() {
    assert_eq!(measure_nesting(b""), 0);
    assert_eq!(measure_nesting(b"a = 1"), 0);
    assert_eq!(measure_nesting(b"[table]\na = 1\n[other]\n"), 1);
    assert_eq!(measure_nesting(b"[[list]]\n[[list]]\n"), 2);
    assert_eq!(measure_nesting(b"a = [[1, 2], [3, [4]]]"), 3);
    assert_eq!(measure_nesting(b"a = { b = { c = [1] } }"), 3);
    assert_eq!(measure_nesting(b"a = \"[[[[\"\nb = '{{{'\n"), 0);
    assert_eq!(measure_nesting(b"a = 1 # [[[[\nb = [2]"), 1);
    assert_eq!(measure_nesting(b"a = \"x\\\"[[\"\nb = [2]"), 1);
    assert_eq!(measure_nesting(b"]]]] a = [1]"), 1);
    // A closing bracket in a string does not hide an open one.
    assert_eq!(measure_nesting(b"a = [ \"]\", [ \"]\", [ 1 ] ] ]"), 3);
    // A string of several lines is passed over like a string of one line.
    assert_eq!(measure_nesting(b"a = \"\"\"x\"\"\"\n[t]\n[u]\n"), 1);
    assert_eq!(measure_nesting(b"a = '''x'''\n[t]\n[u]\n[v]\n"), 1);
    assert_eq!(measure_nesting(b"a = \"\"\"\n[[[[\n\"\" ]] \\\"\"\" [[\n\"\"\"\nb = [1]"), 1);
    assert_eq!(measure_nesting(b"a = '''\n[[[[ \\'''\nb = [[1]]"), 2);
    // Up to two quotes behind the three that end it belong to the string.
    assert_eq!(measure_nesting(b"a = \"\"\"x\"\"\"\"\"\nb = [1]"), 1);
    assert_eq!(measure_nesting(b"a = [\"\"\"x\"\"\"\"\"\"[[\"]"), 1);
    assert_eq!(measure_nesting(b"a = \"\"\"\"\"\"\nb = [1]"), 1);
    // Behind a line end in a string of one line every opening bracket counts.
    assert_eq!(measure_nesting(b"a = \"x\n[t]\n[u]\n"), 2);
}

fn nested_arrays(depth: usize) -> Vec<u8> {
    let mut text = String::from("a = ");
    for _ in 0..depth {
        text.push('[');
    }
    for _ in 0..depth {
        text.push(']');
    }
    text.into_bytes()
}

fn is_too_deep(parsed: Result<ConfigElement, SourceError>) -> bool {
    matches!(parsed, Err(SourceError::Custom(text)) if text == "TOML text is nested too deeply")
}

#[test]
fn toml_nested_up_to_the_limit_is_read() {
    assert_eq!(TOML_NESTING_LIMIT, 128);
    let element = TomlFormatParser::parse(nested_arrays(128)).unwrap();
    let mut inner = element.as_map().unwrap().get("a").unwrap();
    let mut depth = 1;
    while let Some(next) = inner.as_list().unwrap().first() {
        inner = next;
        depth += 1;
    }
    assert_eq!(depth, 128);
}

#[test]
fn toml_nested_beyond_the_limit_is_refused() {
    assert!(is_too_deep(TomlFormatParser::parse(nested_arrays(129))));
    assert!(is_too_deep(TomlFormatParser::parse(nested_arrays(100_000))));
    let mut tables = String::from("a = ");
    for _ in 0..200 {
        tables.push_str("{ a = ");
    }
    tables.push('1');
    for _ in 0..200 {
        tables.push_str(" }");
    }
    assert!(is_too_deep(TomlFormatParser::parse(tables.into_bytes())));
    let mut hidden = String::from("a = ");
    for _ in 0..200 {
        hidden.push_str("[ \"]\", ");
    }
    assert!(is_too_deep(TomlFormatParser::parse(hidden.into_bytes())));
}

#[test]
fn toml_with_many_tables_and_brackets_in_strings_is_read() {
    let mut text = String::new();
    for i in 0..500 {
        text.push_str(&format!("[[server]]\nname = \"[{}]\" # [\nports = [1, 2]\n", i));
    }
    let element = TomlFormatParser::parse(text.into_bytes()).unwrap();
    let servers = element.as_map().unwrap().get("server").unwrap().as_list().unwrap();
    assert_eq!(servers.len(), 500);
    assert_eq!(
        servers[499].as_map().unwrap().get("name").unwrap().as_str(),
        Some("[499]")
    );
}

#[test]
fn nesting_counts_the_dots_of_keys_and_of_table_names() {
    assert_eq!(measure_nesting(b"a.b.c = 1"), 2);
    assert_eq!(measure_nesting(b"a . b . c = 1"), 2);
    assert_eq!(measure_nesting(b"[a.b.c]\nx.y = 1\n"), 3);
    assert_eq!(measure_nesting(b"[[a.b]]\nx = 1\n"), 3);
    // The dots of values are no keys.
    assert_eq!(measure_nesting(b"a = 1.5\nb = [1.5, 2.5]\nc = 1979-05-27T07:32:00.999Z\n"), 1);
    // The dots of a key count as long as its value lasts.
    assert_eq!(measure_nesting(b"a = { x.y = 1.5, z.w = 2.5 }"), 2);
    assert_eq!(measure_nesting(b"a = [{ x.y = 1 }, { z.w = [2] }, { u.v.w = 3 }]"), 4);
    assert_eq!(measure_nesting(b"a.b = { c.d = { e.f = 1 }, g = 2 }\nh.i = 3\n"), 5);
    assert_eq!(measure_nesting(b"a.b = [\n  { c.d = 1 },\n  { e.f = 2 },\n]\ng = [[[3]]]\n"), 4);
    // A dot in a quoted part of a key parts nothing.
    assert_eq!(measure_nesting(b"\"a.b\".c = 1"), 1);
    assert_eq!(measure_nesting(b"['a.b'.c]\n"), 2);
    // Every statement is counted for itself.
    assert_eq!(measure_nesting(b"a.b = 1\nc.d = 2\ne.f = 3\n"), 1);
    assert_eq!(measure_nesting(b"a = '''x.y.z'''\nb = 1.5\nc = 2.5\n"), 0);
    // Behind a line end in a string of one line every dot counts.
    assert_eq!(measure_nesting(b"a = 'x\nb = 1.5\nc = 2.5\n"), 2);
}

fn dotted(parts: usize) -> String {
    let mut key = String::from("a");
    for _ in 1..parts {
        key.push_str(".a");
    }
    key
}

fn depth_of(element: &ConfigElement) -> usize {
    let mut depth = 0;
    let mut inner = element;
    while let Some(map) = inner.as_map() {
        match map.entries.first() {
            Some(entry) => inner = &entry.1,
            None => break,
        }
        depth += 1;
    }
    depth
}

#[test]
fn toml_with_a_long_dotted_key_is_read_up_to_the_limit() {
    let text = format!("{} = 1", dotted(129));
    assert_eq!(measure_nesting(text.as_bytes()), 128);
    let element = TomlFormatParser::parse(text.into_bytes()).unwrap();
    assert_eq!(depth_of(&element), 129);

    let text = format!("[{}]\nx = 1\n", dotted(128));
    let element = TomlFormatParser::parse(text.into_bytes()).unwrap();
    assert_eq!(depth_of(&element), 129);
}

#[test]
fn toml_with_a_dotted_key_beyond_the_limit_is_refused() {
    assert!(is_too_deep(TomlFormatParser::parse(
        format!("{} = 1", dotted(130)).into_bytes()
    )));
    assert!(is_too_deep(TomlFormatParser::parse(
        format!("{} = 1", dotted(200_000)).into_bytes()
    )));
    assert!(is_too_deep(TomlFormatParser::parse(
        format!("[{}]\nx = 1\n", dotted(200_000)).into_bytes()
    )));
    assert!(is_too_deep(TomlFormatParser::parse(
        format!("[[{}]]\nx = 1\n", dotted(200_000)).into_bytes()
    )));
    assert!(is_too_deep(TomlFormatParser::parse(
        format!("a = {{ {} = 1 }}", dotted(200_000)).into_bytes()
    )));
    // Brackets, keys and the name of the table count together.
    let text = format!("[{}]\n{} = {}\n", dotted(60), dotted(60), "[".repeat(60));
    assert!(is_too_deep(TomlFormatParser::parse(text.into_bytes())));
}

#[test]
fn toml_with_many_dotted_keys_and_floats_is_read() {
    let mut text = String::new();
    for i in 0..400 {
        text.push_str(&format!("server{}.address.number = {}.5\n", i, i));
    }
    text.push_str("floats = [");
    for i in 0..400 {
        text.push_str(&format!("{}.25, ", i));
    }
    text.push_str("]\n");
    let element = TomlFormatParser::parse(text.into_bytes()).unwrap();
    assert_eq!(element.as_map().unwrap().entries.len(), 401);
    assert_eq!(
        element.as_map().unwrap().get("floats").unwrap().as_list().unwrap().len(),
        400
    );
}

#[test]
fn toml_tables_in_any_order_are_read_or_refused_without_a_crash() {
    let texts = [
        "[[a]]\n[a.b]\n[[a]]\n[a.b]\n",
        "[a.b]\n[[a]]\n",
        "[[a.b]]\n[[a]]\n",
        "[a]\n[a]\n",
        "[a.b.c]\n[a]\n[a.b]\n",
        "[[a]]\n[[a.b]]\n[a.b.c]\n[[a]]\n[[a.b]]\n",
        "a.b = 1\n[a]\nc = 2\n",
        "a = { b = 1 }\n[a.c]\n",
        "[a]\nb.c = 1\n[a.b]\nd = 2\n",
        "[[a]]\n[[a]]\n[a.b]\n[[a.b.c]]\n[[a.b.c]]\n",
        "[a]\n[[a.b]]\n[a.b.c]\n[[a.b]]\n",
        "[]\n",
        "[[]]\n",
        "[a.]\n",
        "[.a]\n",
        "[a..b]\n",
        "[a] b = 1\n",
        "[a\n",
        "[[a]\n",
        "a = [\n",
        "a = {\n",
        "a = { b = [ { c.d = 1 }, { c.d = 2 } ] }\n",
        "\"\" = 1\n[\"\"]\n",
        "a.b = 1\na.b.c = 2\n",
        "a = 1\na.b = 2\n",
        "[a]\n[a.b]\n[a]\n",
        "[[a]]\nb = 1\n[[a]]\nb = 2\n[a.c]\n",
    ];
    for text in texts {
        let _ = TomlFormatParser::parse(text.as_bytes().to_vec());
    }
}

#[test]
fn toml_datetimes_of_every_form_are_read_as_their_text() {
    let text = "a = 1979-05-27T00:32:00.999999-07:00\nb = 1979-05-27T07:32:00\nc = 1979-05-27\nd = 07:32:00\ne = [1979-05-27, 1980-01-01]\n";
    let element = TomlFormatParser::parse(text.as_bytes().to_vec()).unwrap();
    let map = element.as_map().unwrap();
    assert_eq!(map.get("a").unwrap().as_str(), Some("1979-05-27T00:32:00.999999-07:00"));
    assert_eq!(map.get("b").unwrap().as_str(), Some("1979-05-27T07:32:00"));
    assert_eq!(map.get("c").unwrap().as_str(), Some("1979-05-27"));
    assert_eq!(map.get("d").unwrap().as_str(), Some("07:32:00"));
    let list = map.get("e").unwrap().as_list().unwrap();
    assert_eq!(list[1].as_str(), Some("1980-01-01"));
    assert_eq!(list[1].get_type(), ConfigElementType::Str);
}

#[test]
fn toml_with_strings_of_several_lines_and_many_tables_is_read() {
    let mut text = String::from("intro = \"\"\"\n[[[ not. a. table ]]]\n\"\" two quotes \\\"\"\" escaped\n\"\"\"\n");
    text.push_str("raw = '''\n{{{ a.b.c \\'''\n");
    for i in 0..300 {
        text.push_str(&format!("[[server]]\nname.first = \"\"\"[{}]\"\"\"\nports = [1.5, 2.5]\n", i));
    }
    let element = TomlFormatParser::parse(text.into_bytes()).unwrap();
    let map = element.as_map().unwrap();
    assert_eq!(
        map.get("intro").unwrap().as_str(),
        Some("[[[ not. a. table ]]]\n\"\" two quotes \"\"\" escaped\n")
    );
    assert_eq!(map.get("raw").unwrap().as_str(), Some("{{{ a.b.c \\"));
    let servers = map.get("server").unwrap().as_list().unwrap();
    assert_eq!(servers.len(), 300);
    let name = servers[299].as_map().unwrap().get("name").unwrap().as_map().unwrap();
    assert_eq!(name.get("first").unwrap().as_str(), Some("[299]"));
}

#[test]
fn toml_nested_deeply_behind_a_string_of_several_lines_is_refused() {
    let mut text = String::from("a = \"\"\"]]]]\"\"\"\nb = ");
    text.push_str(&"[".repeat(100_000));
    assert!(is_too_deep(TomlFormatParser::parse(text.into_bytes())));
    let mut text = String::from("a = ''']]]]'''''\nb = ");
    text.push_str(&"[".repeat(100_000));
    assert!(is_too_deep(TomlFormatParser::parse(text.into_bytes())));
    let mut text = String::from("a = \"\"\"x\"\"\"\"\"\"[[[\"\nb = ");
    text.push_str(&"[".repeat(100_000));
    assert!(is_too_deep(TomlFormatParser::parse(text.into_bytes())));
}

// A small generator of numbers, the same on every run.
struct Dice(u64);

impl Dice {
    fn roll(&mut self, sides: u64) -> u64 {
        self.0 = self.0.wrapping_mul(6364136223846793005).wrapping_add(1442695040888963407);
        (self.0 >> 33) % sides
    }
}

fn random_key_part(dice: &mut Dice) -> String {
    match dice.roll(5) {
        0 => "\"a.b]\"".to_string(),
        1 => "'c[.{'".to_string(),
        2 => "\"q\\\"=\"".to_string(),
        _ => format!("k{}", dice.roll(4)),
    }
}

fn random_key(dice: &mut Dice) -> String {
    let mut key = random_key_part(dice);
    for _ in 0..dice.roll(3) {
        key.push_str(if dice.roll(2) == 0 { "." } else { " . " });
        key.push_str(&random_key_part(dice));
    }
    key
}

fn random_value(dice: &mut Dice, depth: u64) -> String {
    let choice = if depth == 0 { dice.roll(7) } else { dice.roll(10) };
    match choice {
        0 => "1".to_string(),
        1 => "2.5".to_string(),
        2 => "\"]] [ \\\" }} \\\\\"".to_string(),
        3 => "'[[ \" {{'".to_string(),
        4 => "\"\"\"\n[[ \"\" ]] \\\"\"\" { .\n\"\"\"\"".to_string(),
        5 => "'''\n{{ '' [[ '''''".to_string(),
        6 => "1979-05-27T07:32:00.5Z".to_string(),
        7 | 8 => {
            let mut text = String::from("[");
            for _ in 0..dice.roll(3) {
                text.push_str(if dice.roll(3) == 0 { " # ] [\n " } else { "\n" });
                text.push_str(&random_value(dice, depth - 1));
                text.push(',');
            }
            text.push(']');
            text
        }
        _ => {
            let mut text = String::from("{ ");
            for i in 0..dice.roll(3) {
                if i > 0 {
                    text.push_str(", ");
                }
                text.push_str(&format!("u{} . {} = ", i, random_key(dice)));
                text.push_str(&random_value(dice, depth - 1));
            }
            text.push_str(" }");
            text
        }
    }
}

fn containers(element: &ConfigElement) -> usize {
    if let Some(list) = element.as_list() {
        1 + list.iter().map(containers).max().unwrap_or(0)
    } else if let Some(map) = element.as_map() {
        1 + map.entries.iter().map(|entry| containers(&entry.1)).max().unwrap_or(0)
    } else {
        0
    }
}

#[test]
fn measured_nesting_is_never_below_the_nesting_of_what_is_read() {
    let mut dice = Dice(7);
    let mut read = 0;
    for round in 0..6000 {
        let mut text = String::new();
        for statement in 0..dice.roll(5) {
            if dice.roll(3) == 0 {
                let name = format!("t{}x{} . {}", round, statement, random_key(&mut dice));
                if dice.roll(2) == 0 {
                    text.push_str(&format!("[{}] # [[\n", name));
                } else {
                    text.push_str(&format!("[[ {} ]]\n", name));
                }
            }
            text.push_str(&format!("v{} . {} = ", statement, random_key(&mut dice)));
            text.push_str(&random_value(&mut dice, 3));
            text.push_str(if dice.roll(2) == 0 { " # \" [ .\n" } else { "\n" });
        }
        let measured = measure_nesting(text.as_bytes());
        if let Ok(element) = TomlFormatParser::parse(text.clone().into_bytes()) {
            read += 1;
            // Besides what is measured there is the table of the whole text,
            // the last part of the name of a table, and the list of a table
            // that is one of several.
            assert!(
                containers(&element) <= measured + 3,
                "measured {} for {:?}",
                measured,
                text
            );
        }
    }
    assert!(read > 3000);
}

#[test]
fn toml_of_every_order_of_a_few_statements_is_read_or_refused_without_a_crash() {
    let statements = [
        "[a]\n", "[a.b]\n", "[a.b.c]\n", "[[a]]\n", "[[a.b]]\n", "[[a.b.c]]\n", "[b]\n",
        "a = 1\n", "b = 1\n", "a.b = 1\n", "a.b.c = 1\n", "a = { b = 1 }\n", "a = [{ b = 1 }]\n",
        "b.c = [1]\n",
    ];
    let count = statements.len();
    let mut read = 0;
    let mut refused = 0;
    for first in 0..count {
        for second in 0..count {
            for third in 0..count {
                for fourth in 0..count {
                    let text = format!(
                        "{}{}{}{}",
                        statements[first], statements[second], statements[third],
                        statements[fourth]
                    );
                    match TomlFormatParser::parse(text.into_bytes()) {
                        Ok(element) => {
                            assert!(element.is_map());
                            read += 1;
                        }
                        Err(SourceError::TomlParserError(_)) => refused += 1,
                        Err(_) => panic!("another error"),
                    }
                }
            }
        }
    }
    assert_eq!(read + refused, count * count * count * count);
    assert!(read > 1000 && refused > 1000);
}

#[test]
fn toml_with_many_dotted_keys_in_one_statement_is_read() {
    let mut text = String::from("servers = [\n");
    for i in 0..65 {
        text.push_str(&format!("  {{ address.host = \"h{}\", address.number = {} }},\n", i, i));
    }
    text.push_str("]\n");
    assert_eq!(measure_nesting(text.as_bytes()), 3);
    let element = TomlFormatParser::parse(text.into_bytes()).unwrap();
    let servers = element.as_map().unwrap().get("servers").unwrap().as_list().unwrap();
    assert_eq!(servers.len(), 65);
    let address = servers[64].as_map().unwrap().get("address").unwrap().as_map().unwrap();
    assert_eq!(address.get("host").unwrap().as_str(), Some("h64"));
    assert_eq!(address.get("number").unwrap().as_i64(), Some(64));

    let mut wide = String::from("a = { ");
    for i in 0..500 {
        wide.push_str(&format!("k{}.x.y = {}, ", i, i));
    }
    wide.push_str("last.x.y = 0 }\n");
    assert_eq!(measure_nesting(wide.as_bytes()), 3);
    assert!(TomlFormatParser::parse(wide.into_bytes()).is_ok());
}
